//! Person names: per-country name pools and the sampling of one
//! `"<first> <surname>"` string from them.
use crate::rng::rand_below;
use vstd::prelude::*;

verus! {

/// The countries a name catalog can hold pools for.
#[derive(Debug, Clone, Copy, PartialEq, Eq, Structural, Hash)]
pub enum Country {
    Usa,
    Japan,
}

/// The two ordered name pools of one country.
#[derive(Debug, Clone)]
pub struct CountryNames {
    pub first_names: Vec<String>,
    pub surnames: Vec<String>,
}

/// The name catalog: at most one pool pair per country.  It is built once
/// from external configuration and only read afterwards.
#[derive(Debug, Clone)]
pub struct NameConfig {
    pub usa: Option<CountryNames>,
    pub japan: Option<CountryNames>,
}

impl NameConfig {
    /// The pool pair of a country, if the configuration had one.
    pub open spec fn spec_get(self, c: Country) -> Option<CountryNames> {
        match c {
            Country::Usa => self.usa,
            Country::Japan => self.japan,
        }
    }

    pub fn get(&self, c: Country) -> (r: Option<&CountryNames>)
        ensures
            r is Some <==> self.spec_get(c) is Some,
            r matches Some(p) ==> *p == self.spec_get(c)->Some_0,
    {
        match c {
            Country::Usa => self.usa.as_ref(),
            Country::Japan => self.japan.as_ref(),
        }
    }
}

/// A first name and a surname joined by a single space.
pub open spec fn joined_name(f: Seq<char>, s: Seq<char>) -> Seq<char> {
    f + seq![' '] + s
}

/// What a pick from an ordered pool may be: any entry of the pool, or the
/// fixed fallback when the pool is empty.
pub open spec fn pick_ok(pool: Seq<Seq<char>>, fallback: Seq<char>, p: Seq<char>) -> bool {
    if pool.len() == 0 {
        p == fallback
    } else {
        pool.contains(p)
    }
}

/// What a generated name for a country may be: a first-name pick and a
/// surname pick joined by a space, with `"John"` and `"Smith"` as the
/// fallbacks of empty pools.
pub open spec fn name_ok(c: CountryNames, r: Seq<char>) -> bool {
    exists|f: Seq<char>, s: Seq<char>|
        {
            &&& r == joined_name(f, s)
            &&& pick_ok(c.first_names.deep_view(), "John"@, f)
            &&& pick_ok(c.surnames.deep_view(), "Smith"@, s)
        }
}

/// One uniformly random entry of the pool, or the fallback if it is empty.
fn pick(pool: &Vec<String>, fallback: &str) -> (r: String)
    ensures
        pick_ok(pool.deep_view(), fallback@, r@),
{
    if pool.len() == 0 {
        String::from_str(fallback)
    } else {
        let i = rand_below(pool.len() as u64) as usize;
        let r = pool[i].clone();
        assert(pool.deep_view()[i as int] == r@);
        assert(pool.deep_view().contains(r@));
        r
    }
}

/// One random name from the catalog's pool for Japan, the fixed country the
/// generation policy selects.  A catalog without that pool offers nothing
/// to draw from, so it is excluded by precondition; `NameGen` turns the
/// same situation into a `ConfigError` instead.
pub fn generate_name(config: &NameConfig) -> (r: String)
    requires
        config.spec_get(Country::Japan) is Some,
    ensures
        name_ok(config.spec_get(Country::Japan)->Some_0, r@),
{
    generate_name_for(config, Country::Japan)
}

/// One random name from the catalog's pool for the given country.
pub fn generate_name_for(config: &NameConfig, country: Country) -> (r: String)
    requires
        config.spec_get(country) is Some,
    ensures
        name_ok(config.spec_get(country)->Some_0, r@),
{
    let pool = match config.get(country) {
        Some(p) => p,
        None => vstd::pervasive::unreached(),
    };
    let first = pick(&pool.first_names, "John");
    let surname = pick(&pool.surnames, "Smith");
    let ghost f = first@;
    let ghost s = surname@;
    let mut out = first;
    out.append(" ");
    out.append(surname.as_str());
    proof {
        reveal_strlit(" ");
        assert(" "@ =~= seq![' ']);
        assert(out@ == joined_name(f, s));
        assert(name_ok(config.spec_get(country)->Some_0, out@));
    }
    out
}

} // verus!
