//! The closed set of Discord timestamp output styles: token resolution,
//! the one-character style codes, and the markup formatter.

use vstd::prelude::*;
use vstd::string::StringExecFns;

use crate::decimal::{i64_to_string, int_str};

verus! {

/// The eight output styles of a Discord timestamp.
#[derive(Debug, Clone, Copy, PartialEq, Eq, Structural)]
pub enum Style {
    Default,
    ShortTime,
    LongTime,
    ShortDate,
    LongDate,
    ShortDateTime,
    LongDateTime,
    RelativeTime,
}

impl Default for Style {
    /// The style used when none is selected.
    fn default() -> (r: Self)
        ensures
            r == Style::Default,
    {
        Style::Default
    }
}

/// The one-or-zero-character code of a style; only `Default` has the
/// empty code.
pub open spec fn spec_code(style: Style) -> Seq<char> {
    match style {
        Style::Default => ""@,
        Style::ShortTime => "t"@,
        Style::LongTime => "T"@,
        Style::ShortDate => "d"@,
        Style::LongDate => "D"@,
        Style::ShortDateTime => "f"@,
        Style::LongDateTime => "F"@,
        Style::RelativeTime => "R"@,
    }
}

/// The kebab-case long name of a style.
pub open spec fn spec_long_name(style: Style) -> Seq<char> {
    match style {
        Style::Default => "default"@,
        Style::ShortTime => "short-time"@,
        Style::LongTime => "long-time"@,
        Style::ShortDate => "short-date"@,
        Style::LongDate => "long-date"@,
        Style::ShortDateTime => "short-date-time"@,
        Style::LongDateTime => "long-date-time"@,
        Style::RelativeTime => "relative-time"@,
    }
}

/// The style selected by a token: each style is selected by its long
/// name, and each style other than `Default` also by its code.
pub open spec fn spec_style_from_token(s: Seq<char>) -> Option<Style> {
    if s == "default"@ {
        Some(Style::Default)
    } else if s == "t"@ || s == "short-time"@ {
        Some(Style::ShortTime)
    } else if s == "T"@ || s == "long-time"@ {
        Some(Style::LongTime)
    } else if s == "d"@ || s == "short-date"@ {
        Some(Style::ShortDate)
    } else if s == "D"@ || s == "long-date"@ {
        Some(Style::LongDate)
    } else if s == "f"@ || s == "short-date-time"@ {
        Some(Style::ShortDateTime)
    } else if s == "F"@ || s == "long-date-time"@ {
        Some(Style::LongDateTime)
    } else if s == "R"@ || s == "relative-time"@ {
        Some(Style::RelativeTime)
    } else {
        None
    }
}

/// The message returned for a token that selects no style.
pub open spec fn invalid_style_message() -> Seq<char> {
    "Expected one of: default, short-time, t, long-time, T, short-date, d, long-date, D, short-date-time, f, long-date-time, F, relative-time, R"@
}

/// The markup produced for a style and an epoch value: `<t:{epoch}>` for
/// `Default`, and `<t:{epoch}:{code}>` for every other style.
pub open spec fn spec_formatted(style: Style, unix: int) -> Seq<char> {
    if style == Style::Default {
        "<t:"@ + int_str(unix) + ">"@
    } else {
        "<t:"@ + int_str(unix) + ":"@ + spec_code(style) + ">"@
    }
}

/// Equality of two string slices by contents.
fn str_eq(a: &str, b: &str) -> (r: bool)
    ensures
        r == (a@ == b@),
{
    let oa = a.to_owned();
    let ob = b.to_owned();
    oa.eq(&ob)
}

impl Style {
    /// Character code associated with this style
    pub fn code(&self) -> (r: &'static str)
        ensures
            r@ == spec_code(*self),
    {
        match self {
            Style::Default => "",
            Style::ShortTime => "t",
            Style::LongTime => "T",
            Style::ShortDate => "d",
            Style::LongDate => "D",
            Style::ShortDateTime => "f",
            Style::LongDateTime => "F",
            Style::RelativeTime => "R",
        }
    }

    /// Resolves a selector token, either the kebab-case long name or the
    /// one-character code, into a style; a token that selects no style is
    /// rejected with a message enumerating every valid token.
    pub fn parse(s: &str) -> (r: Result<Self, String>)
        ensures
            match r {
                Ok(style) => spec_style_from_token(s@) == Some(style),
                Err(m) => spec_style_from_token(s@) is None && m@ == invalid_style_message(),
            },
    {
        if str_eq(s, "default") {
            Ok(Style::Default)
        } else if str_eq(s, "t") || str_eq(s, "short-time") {
            Ok(Style::ShortTime)
        } else if str_eq(s, "T") || str_eq(s, "long-time") {
            Ok(Style::LongTime)
        } else if str_eq(s, "d") || str_eq(s, "short-date") {
            Ok(Style::ShortDate)
        } else if str_eq(s, "D") || str_eq(s, "long-date") {
            Ok(Style::LongDate)
        } else if str_eq(s, "f") || str_eq(s, "short-date-time") {
            Ok(Style::ShortDateTime)
        } else if str_eq(s, "F") || str_eq(s, "long-date-time") {
            Ok(Style::LongDateTime)
        } else if str_eq(s, "R") || str_eq(s, "relative-time") {
            Ok(Style::RelativeTime)
        } else {
            Err(String::from_str(
                "Expected one of: default, short-time, t, long-time, T, short-date, d, long-date, D, short-date-time, f, long-date-time, F, relative-time, R",
            ))
        }
    }

    /// Renders the markup for this style and an epoch-seconds value.
    pub fn get_formatted(&self, unix: i64) -> (r: String)
        ensures
            r@ == spec_formatted(*self, unix as int),
    {
        let mut out = String::from_str("<t:");
        let num = i64_to_string(unix);
        out.append(num.as_str());
        match self {
            Style::Default => {
                out.append(">");
            },
            _ => {
                out.append(":");
                out.append(self.code());
                out.append(">");
            },
        }
        proof {
            assert(out@ =~= spec_formatted(*self, unix as int));
        }
        out
    }
}

/// Law: for every style, resolving its kebab-case long name yields that
/// style, and for every style other than `Default`, resolving its
/// one-character code yields the same style.
pub proof fn lemma_resolve_name_and_code(style: Style)
    ensures
        spec_style_from_token(spec_long_name(style)) == Some(style),
        style != Style::Default ==> spec_style_from_token(spec_code(style)) == Some(style),
{
    reveal_strlit("default");
    reveal_strlit("t");
    reveal_strlit("short-time");
    reveal_strlit("T");
    reveal_strlit("long-time");
    reveal_strlit("d");
    reveal_strlit("short-date");
    reveal_strlit("D");
    reveal_strlit("long-date");
    reveal_strlit("f");
    reveal_strlit("short-date-time");
    reveal_strlit("F");
    reveal_strlit("long-date-time");
    reveal_strlit("R");
    reveal_strlit("relative-time");
    assert("default"@.len() == 7);
    assert("short-time"@.len() == 10);
    assert("long-time"@.len() == 9);
    assert("short-date"@.len() == 10);
    assert("long-date"@.len() == 9);
    assert("short-date-time"@.len() == 15);
    assert("long-date-time"@.len() == 14);
    assert("relative-time"@.len() == 13);
    assert("t"@.len() == 1 && "t"@[0] == 't');
    assert("T"@.len() == 1 && "T"@[0] == 'T');
    assert("d"@.len() == 1 && "d"@[0] == 'd');
    assert("D"@.len() == 1 && "D"@[0] == 'D');
    assert("f"@.len() == 1 && "f"@[0] == 'f');
    assert("F"@.len() == 1 && "F"@[0] == 'F');
    assert("R"@.len() == 1 && "R"@[0] == 'R');
    assert("short-time"@[6] == 't' && "short-date"@[6] == 'd');
    assert("long-time"@[5] == 't' && "long-date"@[5] == 'd');
    match style {
        Style::Default => {
            assert(spec_style_from_token("default"@) == Some(Style::Default));
        },
        Style::ShortTime => {
            assert(spec_style_from_token("short-time"@) == Some(Style::ShortTime));
            assert(spec_style_from_token("t"@) == Some(Style::ShortTime));
        },
        Style::LongTime => {
            assert(spec_style_from_token("long-time"@) == Some(Style::LongTime));
            assert(spec_style_from_token("T"@) == Some(Style::LongTime));
        },
        Style::ShortDate => {
            assert(spec_style_from_token("short-date"@) == Some(Style::ShortDate));
            assert(spec_style_from_token("d"@) == Some(Style::ShortDate));
        },
        Style::LongDate => {
            assert(spec_style_from_token("long-date"@) == Some(Style::LongDate));
            assert(spec_style_from_token("D"@) == Some(Style::LongDate));
        },
        Style::ShortDateTime => {
            assert(spec_style_from_token("short-date-time"@) == Some(Style::ShortDateTime));
            assert(spec_style_from_token("f"@) == Some(Style::ShortDateTime));
        },
        Style::LongDateTime => {
            assert(spec_style_from_token("long-date-time"@) == Some(Style::LongDateTime));
            assert(spec_style_from_token("F"@) == Some(Style::LongDateTime));
        },
        Style::RelativeTime => {
            assert(spec_style_from_token("relative-time"@) == Some(Style::RelativeTime));
            assert(spec_style_from_token("R"@) == Some(Style::RelativeTime));
        },
    }
}

/// Law: formatting is a pure function of the style and the epoch value;
/// identical inputs always produce the identical string.
pub proof fn lemma_format_pure(s1: Style, e1: i64, s2: Style, e2: i64)
    requires
        s1 == s2,
        e1 == e2,
    ensures
        spec_formatted(s1, e1 as int) == spec_formatted(s2, e2 as int),
{
}

} // verus!

