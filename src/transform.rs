//! Renaming local files before upload by a pattern and a replacement template.

use vstd::prelude::*;
use crate::pattern::{compiles, is_match, pattern_matches, replace_all, replaced_all, valid_pattern};
use crate::text::is_digit;

verus! {

/// How many digits `s` begins with.
pub open spec fn leading_digits(s: Seq<char>) -> nat
    decreases s.len(),
{
    if s.len() > 0 && is_digit(s[0]) {
        1 + leading_digits(s.drop_first())
    } else {
        0
    }
}

/// The template with each numbered group reference `$n` written `${n}`, so
/// that the characters after the number are not read as part of a group
/// name; `$$` stays as it is.
pub open spec fn braced(t: Seq<char>) -> Seq<char>
    decreases t.len(),
{
    if t.len() == 0 {
        Seq::empty()
    } else if t.len() >= 2 && t[0] == '$' && t[1] == '$' {
        seq!['$', '$'] + braced(t.subrange(2, t.len() as int))
    } else if t.len() >= 2 && t[0] == '$' && is_digit(t[1]) && 1 + leading_digits(
        t.subrange(1, t.len() as int),
    ) <= t.len() {
        let n = leading_digits(t.subrange(1, t.len() as int)) as int;
        seq!['$', '{'] + t.subrange(1, 1 + n) + seq!['}'] + braced(t.subrange(1 + n, t.len() as int))
    } else {
        seq![t[0]] + braced(t.subrange(1, t.len() as int))
    }
}

proof fn lemma_leading_digits_bound(s: Seq<char>)
    ensures
        leading_digits(s) <= s.len(),
        forall|k: int| 0 <= k < leading_digits(s) ==> is_digit(s[k]),
        leading_digits(s) < s.len() ==> !is_digit(s[leading_digits(s) as int]),
    decreases s.len(),
{
    if s.len() > 0 && is_digit(s[0]) {
        lemma_leading_digits_bound(s.drop_first());
        assert forall|k: int| 0 <= k < leading_digits(s) implies is_digit(s[k]) by {
            if k > 0 {
                assert(s[k] == s.drop_first()[k - 1]);
            }
        }
    }
}

/// Counts the digits of `t` from position `i` on.
fn count_digits(t: &str, i: usize) -> (r: usize)
    requires
        i <= t@.len(),
    ensures
        r == leading_digits(t@.subrange(i as int, t@.len() as int)),
        i + r <= t@.len(),
{
    let n = t.unicode_len();
    let mut k: usize = i;
    while k < n
        invariant
            i <= k <= n,
            n == t@.len(),
            leading_digits(t@.subrange(i as int, n as int)) == (k - i) + leading_digits(
                t@.subrange(k as int, n as int),
            ),
        decreases n - k,
    {
        let c = t.get_char(k);
        if !('0' <= c && c <= '9') {
            return k - i;
        }
        assert(t@.subrange(k as int, n as int).drop_first() =~= t@.subrange(k + 1, n as int));
        k = k + 1;
    }
    assert(t@.subrange(n as int, n as int).len() == 0);
    k - i
}

/// Writes each numbered group reference of a replacement template in braces.
pub fn brace_template(t: &str) -> (r: String)
    ensures
        r@ == braced(t@),
{
    let n = t.unicode_len();
    let mut out = String::new();
    let mut i: usize = 0;
    assert(t@.subrange(0, n as int) =~= t@);
    while i < n
        invariant
            i <= n,
            n == t@.len(),
            out@ + braced(t@.subrange(i as int, n as int)) == braced(t@),
        decreases n - i,
    {
        let ghost rest = t@.subrange(i as int, n as int);
        let c = t.get_char(i);
        if c == '$' && i + 1 < n && t.get_char(i + 1) == '$' {
            assert(rest.subrange(2, rest.len() as int) =~= t@.subrange(i + 2, n as int));
            out.append("$$");
            proof {
                reveal_strlit("$$");
                assert(out@ + braced(t@.subrange(i + 2, n as int)) =~= braced(t@));
            }
            i = i + 2;
        } else if c == '$' && i + 1 < n && '0' <= t.get_char(i + 1) && t.get_char(i + 1) <= '9' {
            let d = count_digits(t, i + 1);
            proof {
                lemma_leading_digits_bound(rest.subrange(1, rest.len() as int));
            }
            assert(rest.subrange(1, rest.len() as int) =~= t@.subrange(i + 1, n as int));
            assert(rest.subrange(1, 1 + d) =~= t@.subrange(i + 1, i + 1 + d));
            assert(rest.subrange(1 + d, rest.len() as int) =~= t@.subrange(i + 1 + d, n as int));
            out.append("${");
            out.append(t.substring_char(i + 1, i + 1 + d));
            out.append("}");
            proof {
                reveal_strlit("${");
                reveal_strlit("}");
                assert(out@ + braced(t@.subrange(i + 1 + d, n as int)) =~= braced(t@));
            }
            i = i + 1 + d;
        } else {
            assert(rest.subrange(1, rest.len() as int) =~= t@.subrange(i + 1, n as int));
            out.append(t.substring_char(i, i + 1));
            proof {
                assert(t@.subrange(i as int, i + 1) =~= seq![c]);
                assert(out@ + braced(t@.subrange(i + 1, n as int)) =~= braced(t@));
            }
            i = i + 1;
        }
    }
    assert(t@.subrange(n as int, n as int) =~= Seq::<char>::empty());
    assert(out@ + Seq::<char>::empty() =~= out@);
    out
}

/// A rename rule: every match of `pattern` is replaced by `format`, with
/// `$1` or `${name}` standing for the groups.
pub struct Transformer {
    pattern: String,
    format: String,
}

/// Why a rename rule could not be built.
#[derive(Clone, Copy, Debug, PartialEq, Eq, Structural)]
pub enum TransformError {
    /// A template was given without a pattern.
    MissingPattern,
    /// The pattern does not compile.
    InvalidPattern,
    /// A pattern was given without a template.
    MissingFormat,
}

impl Transformer {
    pub closed spec fn pattern_view(&self) -> Seq<char> {
        self.pattern@
    }

    pub closed spec fn format_view(&self) -> Seq<char> {
        self.format@
    }

    /// The pattern compiles.
    pub closed spec fn wf(&self) -> bool {
        valid_pattern(self.pattern@)
    }

    /// What the rule makes of a file name: `None` where the pattern does not match.
    pub open spec fn transformed(&self, name: Seq<char>) -> Option<Seq<char>> {
        if pattern_matches(self.pattern_view(), name) {
            Some(replaced_all(self.pattern_view(), name, braced(self.format_view())))
        } else {
            None
        }
    }

    /// Builds the rule from an optional pattern and an optional template:
    /// no rule where both are absent, an error where only one is given or
    /// the pattern does not compile.
    pub fn new(regex_string: Option<String>, format: Option<String>) -> (r: Result<
        Option<Transformer>,
        TransformError,
    >)
        ensures
            regex_string is None && format is None ==> r == Ok::<Option<Transformer>, TransformError>(None),
            regex_string is None && format is Some ==> r == Err::<Option<Transformer>, TransformError>(TransformError::MissingPattern),
            regex_string matches Some(p) ==> {
                if !valid_pattern(p@) {
                    r == Err::<Option<Transformer>, TransformError>(TransformError::InvalidPattern)
                } else if format is None {
                    r == Err::<Option<Transformer>, TransformError>(TransformError::MissingFormat)
                } else {
                    r matches Ok(Some(t)) && t.wf() && t.pattern_view() == p@
                        && t.format_view() == format.unwrap()@
                }
            },
    {
        let pattern = match regex_string {
            None => {
                return match format {
                    None => Ok(None),
                    Some(_) => Err(TransformError::MissingPattern),
                };
            },
            Some(p) => p,
        };
        if !compiles(pattern.as_str()) {
            return Err(TransformError::InvalidPattern);
        }
        match format {
            None => Err(TransformError::MissingFormat),
            Some(format) => Ok(Some(Transformer { pattern, format })),
        }
    }

    /// The renamed file name, or `None` where the pattern does not match it.
    pub fn transform(&self, filename: &str) -> (r: Option<String>)
        requires
            self.wf(),
        ensures
            match r {
                Some(s) => self.transformed(filename@) == Some(s@),
                None => self.transformed(filename@) is None,
            },
    {
        if !is_match(self.pattern.as_str(), filename) {
            return None;
        }
        let template = brace_template(self.format.as_str());
        Some(replace_all(self.pattern.as_str(), filename, template.as_str()))
    }
}

/// The name under which a file with this base name is uploaded.
pub open spec fn target_name_of(transformer: Option<Transformer>, base_name: Seq<char>) -> Seq<char> {
    match transformer {
        Some(t) => match t.transformed(base_name) {
            Some(s) => s,
            None => base_name,
        },
        None => base_name,
    }
}

/// The name under which a local file is uploaded: its renamed base name where
/// a rule is given and matches, else the base name itself.
pub fn target_name(transformer: &Option<Transformer>, base_name: &str) -> (r: String)
    requires
        transformer matches Some(t) ==> t.wf(),
    ensures
        r@ == target_name_of(*transformer, base_name@),
{
    match transformer {
        Some(t) => match t.transform(base_name) {
            Some(s) => s,
            None => base_name.to_owned(),
        },
        None => base_name.to_owned(),
    }
}

} // verus!
