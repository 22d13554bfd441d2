//! The ignore rule set: which resource names are exempt from destruction,
//! and the parsing of the ignore rule file that declares them.
//!
//! The rule file is TOML text whose top level binds the single key `exact`
//! to a list of resource-name strings. Any other contents are rejected:
//! a malformed file never degrades to "no rules".

use std::collections::BTreeMap;

use vstd::prelude::*;

use crate::error::Error;

verus! {

/// One parsed ignore-rule file: a tagged union of ignore strategies. The
/// only strategy so far ignores resources whose name exactly equals one of
/// the listed strings; the list may be empty, which matches nothing.
pub enum Ignore {
    /// Ignore by exact string match against the listed resource names.
    Exact {
        /// Full resource names to ignore, in file order.
        exact: Vec<String>,
    },
}

impl Ignore {
    /// The names this rule set excludes from destruction, as sequences of
    /// characters, in file order.
    pub open spec fn exclusions(&self) -> Seq<Seq<char>> {
        match self {
            Ignore::Exact { exact } => exact.deep_view(),
        }
    }
}

/// The table of string lists that the TOML text denotes: `Some` of the
/// key-value pairs, each key once, in ascending key order, exactly when the
/// text is a TOML document whose top level binds every key to an array of
/// strings, `None` otherwise.
pub uninterp spec fn toml_string_lists_of(s: Seq<char>) -> Option<
    Seq<(Seq<char>, Seq<Seq<char>>)>,
>;

/// Relies on toml::from_str: parses TOML text into a table binding string
/// keys to arrays of strings, or reports the parser's error message. The
/// parse is a function of the text alone; TOML forbids repeated keys, and
/// the table hands its entries out in ascending key order.
#[verifier::external_body]
fn toml_string_lists(content: &str) -> (parsed: Result<Vec<(String, Vec<String>)>, String>)
    ensures
        parsed is Ok <==> toml_string_lists_of(content@) is Some,
        parsed matches Ok(pairs) ==> pairs.deep_view() == toml_string_lists_of(
            content@,
        ).unwrap(),
{
    match toml::from_str::<BTreeMap<String, Vec<String>>>(content) {
        Ok(table) => Ok(table.into_iter().collect()),
        Err(error) => Err(error.to_string()),
    }
}

/// The exclusion list the rule-file text denotes: `Some` of the strings
/// bound to `exact` exactly when the text is a TOML document whose top
/// level binds that single key to a list of strings, `None` otherwise.
pub open spec fn spec_exact_rules(s: Seq<char>) -> Option<Seq<Seq<char>>> {
    match toml_string_lists_of(s) {
        None => None,
        Some(pairs) => if pairs.len() == 1 && pairs[0].0 == "exact"@ {
            Some(pairs[0].1)
        } else {
            None
        },
    }
}

/// Parses the contents of an ignore rule file. Succeeds exactly on text
/// whose top level binds the single key `exact` to a list of strings, and
/// then returns those strings in file order; everything else is rejected,
/// never treated as an empty rule set.
pub fn parse_ignore(content: &str) -> (rules: Result<Ignore, Error>)
    ensures
        match rules {
            Ok(ignore) => spec_exact_rules(content@) == Some(ignore.exclusions()),
            Err(error) => spec_exact_rules(content@) is None && error matches Error::TomlDe(_),
        },
{
    match toml_string_lists(content) {
        Err(message) => Err(Error::TomlDe(message)),
        Ok(mut pairs) => {
            if pairs.len() != 1 {
                return Err(
                    Error::TomlDe("the ignore file must hold the single key `exact`".to_owned()),
                );
            }
            let ghost pairs_view = pairs.deep_view();
            let pair = pairs.pop().unwrap();
            let (key, names) = pair;
            proof {
                assert(pairs_view[0] == (key@, names.deep_view()));
            }
            let expected = "exact".to_owned();
            if key.eq(&expected) {
                Ok(Ignore::Exact { exact: names })
            } else {
                Err(Error::TomlDe("the ignore file must bind the key `exact`".to_owned()))
            }
        },
    }
}

} // verus!
