//! The batch pipeline: destination resolution, generation dispatch and
//! format dispatch.  Everything here is free of I/O — the caller supplies
//! the one filesystem fact the resolver needs and writes the rendered text
//! to the resolved sink afterwards.
use crate::date::{date_str, day_number, valid_ymd};
use crate::document::{json_text, plain_text, toml_text, yaml_text, Document};
use crate::error::Error;
use crate::generator::{uuid_str, DateGen, Generator, NameGen, UuidGen};
use crate::name::{name_ok, Country, NameConfig};
use crate::OutputFormat;
use vstd::prelude::*;

verus! {

/// The kind of value a generation request asks for.
#[derive(Debug, Clone, Copy, PartialEq, Eq, Structural)]
pub enum GenCommand {
    Uuids,
    Names,
    Dates,
}

/// One generation request, as the command layer hands it in.  A request
/// for names may select a country; when it does not, the fixed default
/// country is used.
#[derive(Debug, Clone)]
pub struct GenerationRequest {
    pub kind: GenCommand,
    pub count: u32,
    pub destination: Option<String>,
    pub format: Option<OutputFormat>,
    pub country: Option<Country>,
}

/// The write destination of a rendered batch.
#[derive(Debug, Clone)]
pub enum Sink {
    Stdout,
    File(String),
}

impl Sink {
    /// The file path, or None for the standard output stream.
    pub open spec fn spec_path(self) -> Option<Seq<char>> {
        match self {
            Sink::Stdout => None,
            Sink::File(p) => Some(p@),
        }
    }
}

/// The index of the last occurrence of `c` in `p`, or -1.
pub open spec fn find_last(p: Seq<char>, c: char) -> int
    decreases p.len(),
{
    if p.len() == 0 {
        -1
    } else if p[p.len() - 1] == c {
        p.len() - 1
    } else {
        find_last(p.drop_last(), c)
    }
}

pub proof fn lemma_find_last_range(p: Seq<char>, c: char)
    ensures
        -1 <= find_last(p, c) < p.len(),
    decreases p.len(),
{
    if p.len() > 0 && p[p.len() - 1] != c {
        lemma_find_last_range(p.drop_last(), c);
    }
}

/// The extension of a path string: what follows the last `.` of the file
/// name (the part after the last `/`), provided that dot is not the file
/// name's first character.  None when there is no such dot — in particular
/// for an empty path and for a path whose file name has no dot.
pub open spec fn path_extension(p: Seq<char>) -> Option<Seq<char>> {
    let s = find_last(p, '/');
    let d = find_last(p, '.');
    if d > s + 1 {
        Some(p.skip(d + 1))
    } else {
        None
    }
}

/// The format a file extension selects when no explicit flag does.
pub open spec fn inferred_format(ext: Seq<char>) -> OutputFormat {
    if ext == "json"@ {
        OutputFormat::Json
    } else if ext == "yaml"@ || ext == "yml"@ {
        OutputFormat::Yaml
    } else if ext == "toml"@ {
        OutputFormat::Toml
    } else {
        OutputFormat::Text
    }
}

/// Effective format selection: the explicit flag wins, else the path's
/// extension, else the default.
pub open spec fn effective_format(fmt: Option<OutputFormat>, ext: Option<Seq<char>>) -> OutputFormat {
    match fmt {
        Some(f) => f,
        None => match ext {
            Some(e) => inferred_format(e),
            None => OutputFormat::Text,
        },
    }
}

/// What destination resolution decides: the effective format, and the file
/// path or None for standard output.  `path_is_dir` reports whether the
/// path names an existing directory, the one fact only the filesystem
/// knows; with no path it is ignored.
pub open spec fn resolve_spec(
    path: Option<Seq<char>>,
    path_is_dir: bool,
    fmt: Option<OutputFormat>,
) -> Result<(OutputFormat, Option<Seq<char>>), Error> {
    match path {
        None => Ok((effective_format(fmt, None), None)),
        Some(p) => if path_is_dir || path_extension(p) is None {
            Err(Error::InvalidPath)
        } else {
            Ok((effective_format(fmt, path_extension(p)), Some(p)))
        },
    }
}

/// A resolved destination.
#[derive(Debug, Clone)]
pub struct Resolution {
    pub format: OutputFormat,
    pub sink: Sink,
}

fn str_eq(a: &str, b: &str) -> (r: bool)
    ensures
        r == (a@ == b@),
{
    let n = a.unicode_len();
    if n != b.unicode_len() {
        assert(a@ != b@);
        return false;
    }
    let mut i: usize = 0;
    while i < n
        invariant
            n == a@.len(),
            n == b@.len(),
            i <= n,
            forall|j: int| 0 <= j < i as int ==> a@[j] == b@[j],
        decreases n - i,
    {
        if a.get_char(i) != b.get_char(i) {
            assert(a@ != b@);
            return false;
        }
        i = i + 1;
    }
    proof {
        assert(a@ =~= b@);
    }
    true
}

fn find_last_exec(s: &str, c: char) -> (r: Option<usize>)
    ensures
        r matches Some(j) ==> find_last(s@, c) == j as int,
        r is None ==> find_last(s@, c) == -1,
{
    let n = s.unicode_len();
    let mut i: usize = n;
    assert(s@.take(n as int) =~= s@);
    while i > 0
        invariant
            n == s@.len(),
            i <= n,
            find_last(s@, c) == find_last(s@.take(i as int), c),
        decreases i,
    {
        i = i - 1;
        let ch = s.get_char(i);
        proof {
            assert(s@.take(i + 1 as int).drop_last() =~= s@.take(i as int));
            assert(s@.take(i + 1 as int)[i as int] == s@[i as int]);
        }
        if ch == c {
            assert(find_last(s@.take(i + 1 as int), c) == i as int);
            return Some(i);
        }
    }
    assert(s@.take(0) =~= Seq::<char>::empty());
    None
}

/// The path's extension, as `path_extension` defines it.
fn extension_of(s: &str) -> (r: Option<&str>)
    ensures
        r matches Some(e) ==> path_extension(s@) == Some(e@),
        r is None ==> path_extension(s@) is None,
{
    let slash = find_last_exec(s, '/');
    let dot = find_last_exec(s, '.');
    proof {
        lemma_find_last_range(s@, '/');
        lemma_find_last_range(s@, '.');
    }
    let n = s.unicode_len();
    match dot {
        None => None,
        Some(d) => {
            let after_slash = match slash {
                None => d > 0,
                Some(j) => d > 0 && d - 1 > j,
            };
            if after_slash {
                let e = s.substring_char(d + 1, n);
                assert(e@ =~= s@.skip(d + 1));
                Some(e)
            } else {
                None
            }
        },
    }
}

/// The exec side of format inference.
fn infer_format(ext: &str) -> (r: OutputFormat)
    ensures
        r == inferred_format(ext@),
{
    if str_eq(ext, "json") {
        OutputFormat::Json
    } else if str_eq(ext, "yaml") || str_eq(ext, "yml") {
        OutputFormat::Yaml
    } else if str_eq(ext, "toml") {
        OutputFormat::Toml
    } else {
        OutputFormat::Text
    }
}

/// Destination resolution: a pure decision with no side effects — on
/// failure nothing has been created, truncated or generated.
pub fn resolve_destination(
    path: &Option<String>,
    path_is_dir: bool,
    format: &Option<OutputFormat>,
) -> (r: Result<Resolution, Error>)
    ensures
        r matches Ok(res) ==> resolve_spec(path.deep_view(), path_is_dir, *format) == Ok::<
            (OutputFormat, Option<Seq<char>>),
            Error,
        >((res.format, res.sink.spec_path())),
        r matches Err(e) ==> resolve_spec(path.deep_view(), path_is_dir, *format) == Err::<
            (OutputFormat, Option<Seq<char>>),
            Error,
        >(e),
{
    match path {
        None => {
            let f = match format {
                Some(f) => *f,
                None => OutputFormat::Text,
            };
            Ok(Resolution { format: f, sink: Sink::Stdout })
        },
        Some(p) => {
            if path_is_dir {
                return Err(Error::InvalidPath);
            }
            match extension_of(p.as_str()) {
                None => Err(Error::InvalidPath),
                Some(ext) => {
                    let f = match format {
                        Some(f) => *f,
                        None => infer_format(ext),
                    };
                    Ok(Resolution { format: f, sink: Sink::File(p.clone()) })
                },
            }
        },
    }
}

/// The country a request draws names from: the selected one, or Japan —
/// the fixed default — when none was selected.
pub open spec fn chosen_country(country: Option<Country>) -> Country {
    match country {
        Some(c) => c,
        None => Country::Japan,
    }
}

/// Whether a name batch can be generated: a catalog was supplied and it has
/// the pool for the chosen country.
pub open spec fn names_available(config: Option<NameConfig>, country: Option<Country>) -> bool {
    match config {
        Some(c) => c.spec_get(chosen_country(country)) is Some,
        None => false,
    }
}

/// What one scalar string of a generated batch may be, per request kind.
pub open spec fn value_ok(
    kind: GenCommand,
    config: Option<NameConfig>,
    country: Option<Country>,
    s: Seq<char>,
) -> bool {
    match kind {
        GenCommand::Uuids => exists|bs: Seq<u8>|
            {
                &&& bs.len() == 16
                &&& (#[trigger] bs[6]) >> 4 == 4
                &&& bs[8] >> 6 == 2
                &&& s == uuid_str(bs)
            },
        GenCommand::Dates => exists|y: int, m: int, d: int|
            {
                &&& valid_ymd(y, m, d)
                &&& day_number(1900, 1, 1) <= #[trigger] day_number(y, m, d) < day_number(
                    2100,
                    12,
                    31,
                )
                &&& s == date_str(y, m, d)
            },
        GenCommand::Names => config matches Some(c) && c.spec_get(chosen_country(country)) matches
            Some(pool) && name_ok(pool, s),
    }
}

/// What a whole generated batch may be.
pub open spec fn batch_ok(
    kind: GenCommand,
    config: Option<NameConfig>,
    country: Option<Country>,
    count: int,
    d: Seq<Seq<char>>,
) -> bool {
    &&& d.len() == count
    &&& forall|i: int| 0 <= i < d.len() ==> value_ok(kind, config, country, #[trigger] d[i])
}

/// Generates the requested batch and renders it as a structured document.
/// Never fails for UUIDs and dates; for names, fails with `ConfigError`
/// exactly when no usable catalog was supplied.
pub fn gen_json(
    kind: &GenCommand,
    count: u32,
    config: Option<NameConfig>,
    country: Option<Country>,
) -> (r: Result<Document, Error>)
    ensures
        r is Ok <==> (kind is Names ==> names_available(config, country)),
        r matches Err(e) ==> e == Error::ConfigError,
        r matches Ok(doc) ==> batch_ok(*kind, config, country, count as int, doc@),
{
    match kind {
        GenCommand::Uuids => {
            let g = UuidGen::new();
            let ids = g.generate_many(count);
            let doc = g.json(ids);
            proof {
                assert forall|i: int| 0 <= i < doc@.len() implies value_ok(
                    *kind,
                    config,
                    country,
                    doc@[i],
                ) by {
                    ids@[i].lemma_wf();
                    assert(doc@[i] == uuid_str(ids@[i].spec_bytes()));
                }
            }
            Ok(doc)
        },
        GenCommand::Dates => {
            let g = DateGen::new();
            let dates = g.generate_many(count);
            let doc = g.json(dates);
            proof {
                g.lemma_range_wf();
                g.spec_start().lemma_wf();
                g.spec_end().lemma_wf();
                assert forall|i: int| 0 <= i < doc@.len() implies value_ok(
                    *kind,
                    config,
                    country,
                    doc@[i],
                ) by {
                    dates@[i].lemma_wf();
                    assert(doc@[i] == date_str(
                        dates@[i].spec_year(),
                        dates@[i].spec_month(),
                        dates@[i].spec_day(),
                    ));
                }
            }
            Ok(doc)
        },
        GenCommand::Names => {
            let cfg = match config {
                Some(c) => c,
                None => {
                    return Err(Error::ConfigError);
                },
            };
            let ctry = match country {
                Some(c) => c,
                None => Country::Japan,
            };
            let g = match NameGen::for_country(cfg, ctry) {
                Ok(g) => g,
                Err(_) => {
                    return Err(Error::ConfigError);
                },
            };
            let names = g.generate_many(count);
            let doc = g.json(names);
            proof {
                assert forall|i: int| 0 <= i < doc@.len() implies value_ok(
                    *kind,
                    config,
                    country,
                    doc@[i],
                ) by {
                    assert(doc@[i] == names@[i]@);
                }
            }
            Ok(doc)
        },
    }
}

/// The serialization of a document under each format.
pub open spec fn format_text(f: OutputFormat, d: Seq<Seq<char>>) -> Seq<char> {
    match f {
        OutputFormat::Json => json_text(d),
        OutputFormat::Yaml => yaml_text(d),
        OutputFormat::Toml => toml_text(d),
        OutputFormat::Text => plain_text(d),
    }
}

/// Serializes a document per the chosen format.
pub fn serialize_document(doc: &Document, format: &OutputFormat) -> (r: String)
    ensures
        r@ == format_text(*format, doc@),
{
    match format {
        OutputFormat::Json => doc.to_json_string(),
        OutputFormat::Yaml => doc.to_yaml_string(),
        OutputFormat::Toml => doc.to_toml_string(),
        OutputFormat::Text => doc.to_plain_string(),
    }
}

/// A rendered batch together with where it is to be written.
#[derive(Debug, Clone)]
pub struct RenderedOutput {
    pub format: OutputFormat,
    pub sink: Sink,
    pub text: String,
}

/// The whole pipeline short of I/O: resolve the destination, generate the
/// batch, render and serialize it.  Resolution failures come first — when
/// the path is rejected no generation work has been done.  The caller
/// writes `text` to `sink`.
pub fn run_request(request: &GenerationRequest, path_is_dir: bool, config: Option<NameConfig>) -> (r:
    Result<RenderedOutput, Error>)
    ensures
        resolve_spec(request.destination.deep_view(), path_is_dir, request.format) matches Err(e)
            ==> r == Err::<RenderedOutput, Error>(e),
        resolve_spec(request.destination.deep_view(), path_is_dir, request.format) is Ok ==> (
        r is Err <==> (request.kind is Names && !names_available(config, request.country))),
        resolve_spec(request.destination.deep_view(), path_is_dir, request.format) is Ok ==> (
        r matches Err(e) ==> e == Error::ConfigError),
        r matches Err(e) ==> e == Error::InvalidPath || e == Error::ConfigError,
        r matches Ok(out) ==> {
            &&& resolve_spec(request.destination.deep_view(), path_is_dir, request.format)
                == Ok::<(OutputFormat, Option<Seq<char>>), Error>((
                out.format,
                out.sink.spec_path(),
            ))
            &&& exists|d: Seq<Seq<char>>|
                {
                    &&& #[trigger] batch_ok(
                        request.kind,
                        config,
                        request.country,
                        request.count as int,
                        d,
                    )
                    &&& out.text@ == format_text(out.format, d)
                }
        },
{
    let resolution = match resolve_destination(&request.destination, path_is_dir, &request.format) {
        Ok(res) => res,
        Err(e) => {
            return Err(e);
        },
    };
    let doc = match gen_json(&request.kind, request.count, config, request.country) {
        Ok(doc) => doc,
        Err(e) => {
            return Err(e);
        },
    };
    let text = serialize_document(&doc, &resolution.format);
    let out = RenderedOutput { format: resolution.format, sink: resolution.sink, text };
    proof {
        assert(batch_ok(request.kind, config, request.country, request.count as int, doc@));
        assert(out.text@ == format_text(out.format, doc@));
    }
    Ok(out)
}

} // verus!
