//! The polymorphism point: one trait that lets the three producers — UUIDs,
//! dates, names — be driven uniformly, plus the producers themselves.
use crate::date::{date_str, sample_date_range, Date};
use crate::document::Document;
use crate::error::Error;
use crate::name::{generate_name_for, name_ok, Country, NameConfig};
use crate::text::hex_digit;
use vstd::prelude::*;

verus! {

/// A producer of one kind of synthetic value.
///
/// `wf` says when the producer is usable, `valid_output` what every value it
/// can hand out satisfies, and `value_text` the scalar string a value takes
/// in a structured document.
pub trait Generator {
    type Output;

    spec fn wf(&self) -> bool;

    spec fn valid_output(&self, o: &Self::Output) -> bool;

    spec fn value_text(&self, o: &Self::Output) -> Seq<char>;

    /// Produces one value; may consume entropy, never fails.
    fn generate(&self) -> (r: Self::Output)
        requires
            self.wf(),
        ensures
            self.valid_output(&r),
    ;

    /// The scalar string of one value.
    fn value_string(&self, o: &Self::Output) -> (r: String)
        requires
            self.valid_output(o),
        ensures
            r@ == self.value_text(o),
    ;

    /// Produces `count` values by repeated generation, in generation order;
    /// a count of zero yields an empty batch, not an error.
    fn generate_many(&self, count: u32) -> (r: Vec<Self::Output>)
        requires
            self.wf(),
        ensures
            r@.len() == count as int,
            forall|i: int| 0 <= i < r@.len() ==> self.valid_output(#[trigger] &r@[i]),
    {
        let mut out: Vec<Self::Output> = Vec::new();
        let mut i: u32 = 0;
        while i < count
            invariant
                self.wf(),
                i <= count,
                out@.len() == i as int,
                forall|j: int| 0 <= j < out@.len() ==> self.valid_output(#[trigger] &out@[j]),
            decreases count - i,
        {
            out.push(self.generate());
            i = i + 1;
        }
        out
    }

    /// Renders a batch as the structured document the serializers take:
    /// every value turned into its scalar string, under the field `"data"`.
    fn json(&self, data: Vec<Self::Output>) -> (r: Document)
        requires
            forall|i: int| 0 <= i < data@.len() ==> self.valid_output(#[trigger] &data@[i]),
        ensures
            r@ == data@.map(|i: int, o: Self::Output| self.value_text(&o)),
    {
        let ghost target = data@.map(|i: int, o: Self::Output| self.value_text(&o));
        let mut strings: Vec<String> = Vec::new();
        let n = data.len();
        let mut i: usize = 0;
        while i < n
            invariant
                n == data@.len(),
                i <= n,
                forall|j: int| 0 <= j < data@.len() ==> self.valid_output(#[trigger] &data@[j]),
                strings@.len() == i as int,
                forall|j: int|
                    0 <= j < i as int ==> #[trigger] strings@[j]@ == self.value_text(&data@[j]),
            decreases n - i,
        {
            strings.push(self.value_string(&data[i]));
            i = i + 1;
        }
        let doc = Document { data: strings };
        proof {
            assert forall|j: int| 0 <= j < target.len() implies doc@[j] == target[j] by {
                assert(doc@[j] == strings@[j]@);
                assert(target[j] == self.value_text(&data@[j]));
            }
            assert(doc@.len() == target.len());
            assert(doc@ =~= target);
        }
        doc
    }
}

/// A version-4 UUID as sixteen plain bytes.
#[derive(Debug, Clone, PartialEq, Eq)]
pub struct UuidValue {
    bytes: Vec<u8>,
}

/// The two lowercase hex digits of one byte.
pub open spec fn hex_byte(b: int) -> Seq<char> {
    seq![crate::text::hex_char(b / 16), crate::text::hex_char(b % 16)]
}

/// The canonical hyphenated 8-4-4-4-12 rendering of sixteen UUID bytes.
pub open spec fn uuid_str(bs: Seq<u8>) -> Seq<char> {
    hex_byte(bs[0] as int) + hex_byte(bs[1] as int) + hex_byte(bs[2] as int) + hex_byte(
        bs[3] as int,
    ) + seq!['-'] + hex_byte(bs[4] as int) + hex_byte(bs[5] as int) + seq!['-'] + hex_byte(
        bs[6] as int,
    ) + hex_byte(bs[7] as int) + seq!['-'] + hex_byte(bs[8] as int) + hex_byte(bs[9] as int)
        + seq!['-'] + hex_byte(bs[10] as int) + hex_byte(bs[11] as int) + hex_byte(bs[12] as int)
        + hex_byte(bs[13] as int) + hex_byte(bs[14] as int) + hex_byte(bs[15] as int)
}

impl UuidValue {
    /// Sixteen bytes with the version-4 and RFC 4122 variant bits in place.
    pub closed spec fn wf(self) -> bool {
        &&& self.bytes@.len() == 16
        &&& self.bytes@[6] >> 4 == 4
        &&& self.bytes@[8] >> 6 == 2
    }

    pub closed spec fn spec_bytes(self) -> Seq<u8> {
        self.bytes@
    }

    /// What well-formedness guarantees about the bytes.
    pub proof fn lemma_wf(self)
        requires
            self.wf(),
        ensures
            self.spec_bytes().len() == 16,
            self.spec_bytes()[6] >> 4 == 4,
            self.spec_bytes()[8] >> 6 == 2,
    {
    }

    /// The value of the version field; 4 for every identifier the library
    /// generates.
    pub fn get_version_num(&self) -> (r: usize)
        requires
            self.wf(),
        ensures
            r == 4,
    {
        (self.bytes[6] >> 4) as usize
    }

    /// The canonical hyphenated lowercase rendering.
    pub fn hyphenated(&self) -> (r: String)
        requires
            self.wf(),
        ensures
            r@ == uuid_str(self.spec_bytes()),
    {
        let mut out = String::new();
        push_hex_byte(&mut out, self.bytes[0]);
        push_hex_byte(&mut out, self.bytes[1]);
        push_hex_byte(&mut out, self.bytes[2]);
        push_hex_byte(&mut out, self.bytes[3]);
        out.push('-');
        push_hex_byte(&mut out, self.bytes[4]);
        push_hex_byte(&mut out, self.bytes[5]);
        out.push('-');
        push_hex_byte(&mut out, self.bytes[6]);
        push_hex_byte(&mut out, self.bytes[7]);
        out.push('-');
        push_hex_byte(&mut out, self.bytes[8]);
        push_hex_byte(&mut out, self.bytes[9]);
        out.push('-');
        push_hex_byte(&mut out, self.bytes[10]);
        push_hex_byte(&mut out, self.bytes[11]);
        push_hex_byte(&mut out, self.bytes[12]);
        push_hex_byte(&mut out, self.bytes[13]);
        push_hex_byte(&mut out, self.bytes[14]);
        push_hex_byte(&mut out, self.bytes[15]);
        assert(out@ =~= uuid_str(self.spec_bytes()));
        out
    }
}

fn push_hex_byte(out: &mut String, b: u8)
    ensures
        final(out)@ == old(out)@ + hex_byte(b as int),
{
    out.push(hex_digit((b / 16) as u32));
    out.push(hex_digit((b % 16) as u32));
    assert(final(out)@ =~= old(out)@ + hex_byte(b as int));
}

/// Relies on uuid::Uuid::new_v4 and as_bytes: sixteen random bytes in field
/// order, with the high nibble of byte 6 forced to 4 (the version) and the
/// two high bits of byte 8 forced to 10 (the RFC 4122 variant).  Nothing
/// more is assumed of the bytes.
#[verifier::external_body]
fn uuid_v4_bytes() -> (r: Vec<u8>)
    ensures
        r@.len() == 16,
        r@[6] >> 4 == 4,
        r@[8] >> 6 == 2,
{
    uuid::Uuid::new_v4().as_bytes().to_vec()
}

/// A UUID generator; stateless.
#[derive(Debug, Clone, Copy, PartialEq, Eq, Structural)]
pub struct UuidGen;

impl UuidGen {
    pub fn new() -> (r: Self) {
        Self
    }
}

impl Generator for UuidGen {
    type Output = UuidValue;

    open spec fn wf(&self) -> bool {
        true
    }

    open spec fn valid_output(&self, o: &UuidValue) -> bool {
        o.wf()
    }

    open spec fn value_text(&self, o: &UuidValue) -> Seq<char> {
        uuid_str(o.spec_bytes())
    }

    fn generate(&self) -> (r: UuidValue) {
        UuidValue { bytes: uuid_v4_bytes() }
    }

    fn value_string(&self, o: &UuidValue) -> (r: String) {
        o.hyphenated()
    }
}

/// A date generator bounded by a half-open day-number range.
///
/// The default range runs from 1900-01-01 to 2100-12-31.
#[derive(Debug, Clone, Copy, PartialEq, Eq, Structural)]
pub struct DateGen {
    start: Date,
    end: Date,
}

impl DateGen {
    /// The sampling interval is non-empty and both bounds are real dates.
    pub closed spec fn range_wf(self) -> bool {
        &&& self.start.wf()
        &&& self.end.wf()
        &&& self.start.day_num() < self.end.day_num()
    }

    pub closed spec fn spec_start(self) -> Date {
        self.start
    }

    pub closed spec fn spec_end(self) -> Date {
        self.end
    }

    /// What range well-formedness guarantees about the bounds.
    pub proof fn lemma_range_wf(self)
        requires
            self.range_wf(),
        ensures
            self.spec_start().wf(),
            self.spec_end().wf(),
            self.spec_start().day_num() < self.spec_end().day_num(),
    {
    }

    /// The generator over the default range.
    pub fn new() -> (r: Self)
        ensures
            r.range_wf(),
            r.spec_start().spec_year() == 1900,
            r.spec_start().spec_month() == 1,
            r.spec_start().spec_day() == 1,
            r.spec_end().spec_year() == 2100,
            r.spec_end().spec_month() == 12,
            r.spec_end().spec_day() == 31,
    {
        let start = match Date::from_ymd(1900, 1, 1) {
            Some(d) => d,
            None => vstd::pervasive::unreached(),
        };
        let end = match Date::from_ymd(2100, 12, 31) {
            Some(d) => d,
            None => vstd::pervasive::unreached(),
        };
        Self { start, end }
    }

    /// A generator over `[start, end)`, or `InvalidRange` exactly when the
    /// interval is empty.
    pub fn with_range(start: Date, end: Date) -> (r: Result<Self, Error>)
        requires
            start.wf(),
            end.wf(),
        ensures
            r is Ok <==> start.day_num() < end.day_num(),
            r matches Ok(g) ==> g.range_wf() && g.spec_start() == start && g.spec_end() == end,
            r is Err ==> r == Err::<Self, Error>(Error::InvalidRange),
    {
        if start.days_from_ce() < end.days_from_ce() {
            Ok(Self { start, end })
        } else {
            Err(Error::InvalidRange)
        }
    }

    /// Replaces the lower bound, or `InvalidRange` exactly when that would
    /// leave an empty sampling interval.
    pub fn start(self, date: Date) -> (r: Result<Self, Error>)
        requires
            self.range_wf(),
            date.wf(),
        ensures
            r is Ok <==> date.day_num() < self.spec_end().day_num(),
            r matches Ok(g) ==> g.range_wf() && g.spec_start() == date && g.spec_end()
                == self.spec_end(),
            r is Err ==> r == Err::<Self, Error>(Error::InvalidRange),
    {
        Self::with_range(date, self.end)
    }

    /// Replaces the upper bound, or `InvalidRange` exactly when that would
    /// leave an empty sampling interval.
    pub fn end(self, date: Date) -> (r: Result<Self, Error>)
        requires
            self.range_wf(),
            date.wf(),
        ensures
            r is Ok <==> self.spec_start().day_num() < date.day_num(),
            r matches Ok(g) ==> g.range_wf() && g.spec_start() == self.spec_start() && g.spec_end()
                == date,
            r is Err ==> r == Err::<Self, Error>(Error::InvalidRange),
    {
        Self::with_range(self.start, date)
    }

    pub fn start_date(&self) -> (r: Date)
        ensures
            r == self.spec_start(),
    {
        self.start
    }

    pub fn end_date(&self) -> (r: Date)
        ensures
            r == self.spec_end(),
    {
        self.end
    }
}

impl Generator for DateGen {
    type Output = Date;

    open spec fn wf(&self) -> bool {
        self.range_wf()
    }

    open spec fn valid_output(&self, o: &Date) -> bool {
        &&& o.wf()
        &&& self.spec_start().day_num() <= o.day_num() < self.spec_end().day_num()
    }

    open spec fn value_text(&self, o: &Date) -> Seq<char> {
        date_str(o.spec_year(), o.spec_month(), o.spec_day())
    }

    fn generate(&self) -> (r: Date) {
        sample_date_range(&self.start, &self.end)
    }

    fn value_string(&self, o: &Date) -> (r: String) {
        o.iso_string()
    }
}

/// A name generator bound to a catalog and a country.
#[derive(Debug, Clone)]
pub struct NameGen {
    config: NameConfig,
    country: Country,
}

impl NameGen {
    pub closed spec fn spec_config(self) -> NameConfig {
        self.config
    }

    pub closed spec fn spec_country(self) -> Country {
        self.country
    }

    /// A generator over the catalog's pool for Japan, the default country,
    /// or `ConfigError` exactly when the catalog lacks that pool.
    pub fn new(config: NameConfig) -> (r: Result<Self, Error>)
        ensures
            r is Ok <==> config.spec_get(Country::Japan) is Some,
            r matches Ok(g) ==> g.spec_config() == config && g.spec_country() == Country::Japan,
            r is Err ==> r == Err::<Self, Error>(Error::ConfigError),
    {
        Self::for_country(config, Country::Japan)
    }

    /// A generator over the catalog's pool for the given country, or
    /// `ConfigError` exactly when the catalog lacks that pool.
    pub fn for_country(config: NameConfig, country: Country) -> (r: Result<Self, Error>)
        ensures
            r is Ok <==> config.spec_get(country) is Some,
            r matches Ok(g) ==> g.spec_config() == config && g.spec_country() == country,
            r is Err ==> r == Err::<Self, Error>(Error::ConfigError),
    {
        match config.get(country) {
            Some(_) => Ok(Self { config, country }),
            None => Err(Error::ConfigError),
        }
    }
}

impl Generator for NameGen {
    type Output = String;

    open spec fn wf(&self) -> bool {
        self.spec_config().spec_get(self.spec_country()) is Some
    }

    open spec fn valid_output(&self, o: &String) -> bool {
        name_ok(self.spec_config().spec_get(self.spec_country())->Some_0, o@)
    }

    open spec fn value_text(&self, o: &String) -> Seq<char> {
        o@
    }

    fn generate(&self) -> (r: String) {
        generate_name_for(&self.config, self.country)
    }

    fn value_string(&self, o: &String) -> (r: String) {
        o.clone()
    }
}

} // verus!
