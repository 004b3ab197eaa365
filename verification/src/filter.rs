//! Allow-list based log filtering.
//!
//! By default all crates are silenced. Only explicitly allowed crates
//! will have their logs emitted at the configured level.

use tracing_subscriber::filter::EnvFilter;

use vstd::prelude::*;

use crate::config::{LogLevel, OtelConfig};
use crate::text::{joined, lemma_joined_push, lemma_text_pairs_push, lemma_texts_push, text_pairs, texts};

verus! {

#[verifier::external_type_specification]
#[verifier::external_body]
pub struct ExEnvFilter(EnvFilter);

/// Name for whether `EnvFilter::try_new` accepts a directive string.
pub uninterp spec fn env_filter_accepts(directives: Seq<char>) -> bool;

/// Relation between a directive string and a filter that
/// `EnvFilter::try_new` built from it. A relation, not a function: each
/// call builds a fresh filter (its caches are seeded per instance).
pub uninterp spec fn env_filter_parsed(directives: Seq<char>, f: EnvFilter) -> bool;

/// Relation between a directive string and a filter that `EnvFilter::new`
/// built from it, skipping the directives that do not parse.
pub uninterp spec fn env_filter_lossy(directives: Seq<char>, f: EnvFilter) -> bool;

/// `EnvFilter::try_new`: a filter parsed from the string when every
/// directive of it parses, `None` otherwise.
#[verifier::external_body]
fn try_new_filter(directives: &str) -> (f: Option<EnvFilter>)
    ensures
        f is Some <==> env_filter_accepts(directives@),
        f matches Some(g) ==> env_filter_parsed(directives@, g),
{
    EnvFilter::try_new(directives).ok()
}

/// `EnvFilter::new`: a filter built from the directives of the string
/// that parse.
#[verifier::external_body]
fn lossy_filter(directives: &str) -> (f: EnvFilter)
    ensures
        env_filter_lossy(directives@, f),
{
    EnvFilter::new(directives)
}

/// The filter that a directive string gives: the filter parsed from it
/// when every directive parses, otherwise `EnvFilter::new("off")`, which
/// lets nothing through.
pub open spec fn filter_from(directives: Seq<char>, f: EnvFilter) -> bool {
    if env_filter_accepts(directives) {
        env_filter_parsed(directives, f)
    } else {
        env_filter_lossy("off"@, f)
    }
}

/// The filter to use once a directive string has been parsed: the parsed
/// filter, or `EnvFilter::new("off")`, which lets nothing through, when
/// parsing failed.
pub fn filter_or_off(parsed: Option<EnvFilter>) -> (f: EnvFilter)
    ensures
        parsed matches Some(p) ==> f == p,
        parsed is None ==> env_filter_lossy("off"@, f),
{
    match parsed {
        Some(p) => p,
        None => lossy_filter("off"),
    }
}

/// `name=level`.
pub open spec fn crate_directive(name: Seq<char>, level: Seq<char>) -> Seq<char> {
    name + "="@ + level
}

/// The directives of an allow-list filter: `off` first, then one
/// `name=level` per allowed crate, then the raw directives.
pub open spec fn allow_list(
    allowed: Seq<(Seq<char>, Seq<char>)>,
    directives: Seq<Seq<char>>,
) -> Seq<Seq<char>> {
    seq!["off"@] + Seq::new(allowed.len(), |i: int| crate_directive(allowed[i].0, allowed[i].1))
        + directives
}

/// The filter string of an allow list: its directives joined by commas.
pub open spec fn allow_list_text(
    allowed: Seq<(Seq<char>, Seq<char>)>,
    directives: Seq<Seq<char>>,
) -> Seq<char> {
    joined(allow_list(allowed, directives), ","@)
}

/// Build the filter string `off,name=level,...,directive,...`.
fn allow_list_string(allowed: &Vec<(String, String)>, directives: &Vec<String>) -> (s: String)
    ensures
        s@ == allow_list_text(text_pairs(allowed@), texts(directives@)),
{
    let ghost pairs = text_pairs(allowed@);
    let ghost dirs = texts(directives@);
    let mut s = "off".to_owned();
    let ghost mut parts: Seq<Seq<char>> = seq!["off"@];
    assert(s@ == joined(parts, ","@));
    let n = allowed.len();
    let mut i: usize = 0;
    while i < n
        invariant
            n == allowed@.len(),
            pairs == text_pairs(allowed@),
            i <= n,
            parts == seq!["off"@] + Seq::new(i as nat, |j: int| crate_directive(pairs[j].0, pairs[j].1)),
            s@ == joined(parts, ","@),
        decreases n - i,
    {
        proof {
            lemma_joined_push(parts, ","@, crate_directive(pairs[i as int].0, pairs[i as int].1));
            assert(parts.push(crate_directive(pairs[i as int].0, pairs[i as int].1)) =~= seq!["off"@]
                + Seq::new((i + 1) as nat, |j: int| crate_directive(pairs[j].0, pairs[j].1)));
        }
        s.append(",");
        s.append(allowed[i].0.as_str());
        s.append("=");
        s.append(allowed[i].1.as_str());
        proof {
            parts = parts.push(crate_directive(pairs[i as int].0, pairs[i as int].1));
            assert(s@ =~= joined(parts, ","@));
        }
        i = i + 1;
    }
    let m = directives.len();
    let mut k: usize = 0;
    let ghost base = parts;
    while k < m
        invariant
            m == directives@.len(),
            dirs == texts(directives@),
            k <= m,
            base.len() >= 1,
            parts == base + dirs.take(k as int),
            s@ == joined(parts, ","@),
        decreases m - k,
    {
        proof {
            lemma_joined_push(parts, ","@, dirs[k as int]);
            assert(parts.push(dirs[k as int]) =~= base + dirs.take(k + 1));
        }
        s.append(",");
        s.append(directives[k].as_str());
        proof {
            parts = parts.push(dirs[k as int]);
        }
        k = k + 1;
    }
    proof {
        assert(dirs.take(m as int) =~= dirs);
        assert(Seq::new(n as nat, |j: int| crate_directive(pairs[j].0, pairs[j].1)) =~= Seq::new(
            pairs.len(),
            |j: int| crate_directive(pairs[j].0, pairs[j].1),
        ));
        assert(parts =~= allow_list(pairs, dirs));
    }
    s
}


/// The allow-list directives of a resolved configuration: each allowed
/// crate at the configured level, then the custom filters.
pub open spec fn config_filter_text(c: crate::config::OtelSettings) -> Seq<char> {
    allow_list_text(
        Seq::new(c.allowed_crates.len(), |i: int| (c.allowed_crates[i], c.log_level.name())),
        c.custom_filters,
    )
}

/// The filter string of a configuration:
/// 1. defaults to `off`, so all crates are silenced;
/// 2. only crates in `allowed_crates` emit logs at the configured level;
/// 3. custom filter directives are applied last.
pub fn config_filter_string(config: &OtelConfig) -> (s: String)
    ensures
        s@ == config_filter_text(config@),
{
    let n = config.allowed_crates.len();
    let mut allowed: Vec<(String, String)> = Vec::new();
    let mut i: usize = 0;
    while i < n
        invariant
            n == config.allowed_crates@.len(),
            i <= n,
            text_pairs(allowed@) == Seq::new(
                i as nat,
                |j: int| (config@.allowed_crates[j], config.log_level.name()),
            ),
        decreases n - i,
    {
        let p = (config.allowed_crates[i].clone(), config.log_level.as_str().to_owned());
        proof {
            lemma_text_pairs_push(allowed@, p);
        }
        allowed.push(p);
        i = i + 1;
        assert(text_pairs(allowed@) =~= Seq::new(
            i as nat,
            |j: int| (config@.allowed_crates[j], config.log_level.name()),
        ));
    }
    allow_list_string(&allowed, &config.custom_filters)
}

/// The filter of a configuration when `RUST_LOG` does not override it:
/// its allow-list directives, or a filter that lets nothing through when
/// they do not parse.
pub fn config_filter(config: &OtelConfig) -> (f: EnvFilter)
    ensures
        filter_from(config_filter_text(config@), f),
{
    let s = config_filter_string(config);
    filter_or_off(try_new_filter(s.as_str()))
}

/// The filter in force for a configuration: a filter read from
/// `RUST_LOG` takes full precedence; without one, the configuration's
/// allow list applies.
pub fn filter_with_override(rust_log: Option<EnvFilter>, config: &OtelConfig) -> (f: EnvFilter)
    ensures
        rust_log matches Some(g) ==> f == g,
        rust_log is None ==> filter_from(config_filter_text(config@), f),
{
    match rust_log {
        Some(g) => g,
        None => config_filter(config),
    }
}

/// Fine-grained filter builder for advanced use cases.
#[derive(Debug, Clone)]
pub struct FilterBuilder {
    default_level: String,
    allowed: Vec<(String, String)>,
    directives: Vec<String>,
}

/// What a [`FilterBuilder`] holds.
pub struct FilterSettings {
    /// Level given to crates allowed without one.
    pub default_level: Seq<char>,
    /// Allowed crates with their levels, in order.
    pub allowed: Seq<(Seq<char>, Seq<char>)>,
    /// Raw directives, in order.
    pub directives: Seq<Seq<char>>,
}

impl View for FilterBuilder {
    type V = FilterSettings;

    closed spec fn view(&self) -> FilterSettings {
        FilterSettings {
            default_level: self.default_level@,
            allowed: text_pairs(self.allowed@),
            directives: texts(self.directives@),
        }
    }
}

impl FilterBuilder {
    /// Create a new filter builder (`info` default level).
    pub fn new() -> (b: Self)
        ensures
            b@ == (FilterSettings {
                default_level: "info"@,
                allowed: Seq::empty(),
                directives: Seq::empty(),
            }),
    {
        let b = FilterBuilder {
            default_level: "info".to_owned(),
            allowed: Vec::new(),
            directives: Vec::new(),
        };
        assert(b@.allowed =~= Seq::empty());
        assert(b@.directives =~= Seq::empty());
        b
    }

    /// Set the default level for crates allowed after this call.
    pub fn default_level(self, level: &str) -> (b: Self)
        ensures
            b@ == (FilterSettings { default_level: level@, ..self@ }),
    {
        let mut b = self;
        b.default_level = level.to_owned();
        b
    }

    /// Allow a crate at the current default level.
    pub fn allow(self, crate_name: &str) -> (b: Self)
        ensures
            b@ == (FilterSettings {
                allowed: self@.allowed.push((crate_name@, self@.default_level)),
                ..self@
            }),
    {
        let mut b = self;
        let p = (crate_name.to_owned(), b.default_level.clone());
        proof {
            lemma_text_pairs_push(b.allowed@, p);
        }
        b.allowed.push(p);
        b
    }

    /// Allow a crate at a specific level.
    pub fn allow_at(self, crate_name: &str, level: &str) -> (b: Self)
        ensures
            b@ == (FilterSettings {
                allowed: self@.allowed.push((crate_name@, level@)),
                ..self@
            }),
    {
        let mut b = self;
        let p = (crate_name.to_owned(), level.to_owned());
        proof {
            lemma_text_pairs_push(b.allowed@, p);
        }
        b.allowed.push(p);
        b
    }

    /// Add a raw filter directive.
    pub fn directive(self, directive: &str) -> (b: Self)
        ensures
            b@ == (FilterSettings { directives: self@.directives.push(directive@), ..self@ }),
    {
        let mut b = self;
        let d = directive.to_owned();
        proof {
            lemma_texts_push(b.directives@, d);
        }
        b.directives.push(d);
        b
    }

    /// The filter string that [`build`](FilterBuilder::build) parses:
    /// `off`, then `name=level` per allowed crate, then the directives,
    /// joined by commas.
    pub fn filter_string(&self) -> (s: String)
        ensures
            s@ == allow_list_text(self@.allowed, self@.directives),
    {
        allow_list_string(&self.allowed, &self.directives)
    }

    /// Build the [`EnvFilter`]: the parsed filter string, or a filter that
    /// lets nothing through when it does not parse.
    pub fn build(self) -> (f: EnvFilter)
        ensures
            filter_from(allow_list_text(self@.allowed, self@.directives), f),
    {
        let s = self.filter_string();
        filter_or_off(try_new_filter(s.as_str()))
    }
}

impl Default for FilterBuilder {
    fn default() -> (b: Self)
        ensures
            b@ == (FilterSettings {
                default_level: Seq::empty(),
                allowed: Seq::empty(),
                directives: Seq::empty(),
            }),
    {
        let b = FilterBuilder {
            default_level: String::new(),
            allowed: Vec::new(),
            directives: Vec::new(),
        };
        assert(b@.allowed =~= Seq::empty());
        assert(b@.directives =~= Seq::empty());
        b
    }
}

/// Convenience: convert a [`LogLevel`] to its filter directive string.
pub fn level_to_directive(level: LogLevel) -> (s: &'static str)
    ensures
        s@ == level.name(),
{
    level.as_str()
}

} // verus!
