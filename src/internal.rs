//! Helpers behind the widgets' data: markup detection, the Wi-Fi strength bar,
//! the volume level and the weather line.

use vstd::prelude::*;

use crate::text::{
    chars_of, contains_chars, has_substring, is_white_space, trim, trimmed, white_space,
};

verus! {

/// Text that carries markup: it holds a closing tag opener and a `>`.
pub open spec fn is_markup(text: Seq<char>) -> bool {
    has_substring(text, "</"@) && has_substring(text, ">"@)
}

/// The strongest of the signal strengths, 0 for none.
pub open spec fn strongest(strengths: Seq<u8>) -> u8
    decreases strengths.len(),
{
    if strengths.len() == 0 {
        0
    } else {
        let rest = strongest(strengths.drop_last());
        if strengths.last() > rest {
            strengths.last()
        } else {
            rest
        }
    }
}

/// The bar drawn for a signal strength in percent: five empty cells at 0,
/// one more filled cell for each further fifth, and "X" above 100.
pub open spec fn signal_bars(strength: u8) -> Seq<char> {
    if strength == 0 {
        "\u{2591}\u{2591}\u{2591}\u{2591}\u{2591}"@
    } else if strength <= 20 {
        "\u{2582}\u{fe0e}\u{2591}\u{2591}\u{2591}\u{2591}"@
    } else if strength <= 40 {
        "\u{2582}\u{2583}\u{fe0e}\u{2591}\u{2591}\u{2591}"@
    } else if strength <= 60 {
        "\u{2582}\u{2583}\u{2584}\u{fe0e}\u{2591}\u{2591}"@
    } else if strength <= 80 {
        "\u{2582}\u{2583}\u{2584}\u{2585}\u{fe0e}\u{2591}"@
    } else if strength <= 100 {
        "\u{2582}\u{2583}\u{2584}\u{2585}\u{2586}"@
    } else {
        "X"@
    }
}

/// `s[i..j]` is a word: a nonempty maximal run of characters that are not white space.
pub open spec fn is_word(s: Seq<char>, i: int, j: int) -> bool {
    &&& 0 <= i < j <= s.len()
    &&& i == 0 || white_space(s[i - 1])
    &&& j == s.len() || white_space(s[j])
    &&& forall|k: int| i <= k < j ==> !white_space(#[trigger] s[k])
}

/// `s[i..j]` is a word that ends with a percent sign.
pub open spec fn is_percent_word(s: Seq<char>, i: int, j: int) -> bool {
    is_word(s, i, j) && s[j - 1] == '%'
}

/// `level` is the volume level read from a volume description: its first word
/// that ends with a percent sign, or "0%" where no word does.
pub open spec fn is_volume_level(description: Seq<char>, level: Seq<char>) -> bool {
    ||| exists|i: int, j: int|
        #![trigger is_percent_word(description, i, j)]
        is_percent_word(description, i, j) && level == description.subrange(i, j) && forall|
            i2: int,
            j2: int,
        | #[trigger] is_percent_word(description, i2, j2) ==> i <= i2
    ||| (forall|i: int, j: int| !#[trigger] is_percent_word(description, i, j)) && level == "0%"@
}

#[verifier::external_type_specification]
#[verifier::external_body]
pub struct ExRegex(regex::Regex);

#[verifier::external_type_specification]
#[verifier::external_body]
pub struct ExRegexError(regex::Error);

/// Relies on `regex::Regex::new`: compiles a pattern, or reports why it cannot.
pub assume_specification[ regex::Regex::new ](re: &str) -> Result<regex::Regex, regex::Error>;

/// What a regex search may hand back for `text`: nothing, or the capture groups
/// of a match, of which the first (the whole match) took part, and each group
/// that took part is a piece of `text`.
pub open spec fn fits_text(groups: Option<Vec<Option<String>>>, text: Seq<char>) -> bool {
    match groups {
        None => true,
        Some(g) => {
            &&& g@.len() >= 1
            &&& g@[0] is Some
            &&& forall|i: int|
                0 <= i < g@.len() && #[trigger] g@[i] is Some ==> has_substring(text, g@[i]->0@)
        },
    }
}

/// Relies on `regex::Regex::captures` and `Captures::iter`: the groups of the
/// leftmost match, each as the matched text or `None` where it took no part.
#[verifier::external_body]
fn capture_groups(re: &regex::Regex, text: &str) -> (r: Option<Vec<Option<String>>>)
    ensures
        fits_text(r, text@),
{
    re.captures(text).map(|caps| caps.iter().map(|m| m.map(|m| m.as_str().to_string())).collect())
}

/// The text of group `i`, empty where the group is missing or took no part.
pub open spec fn group_text(groups: Seq<Option<String>>, i: int) -> Seq<char> {
    if 0 <= i < groups.len() && groups[i] is Some {
        groups[i]->0@
    } else {
        Seq::empty()
    }
}

/// The weather line for the groups that a search of the weather report gave:
/// the first and second groups joined by a space and trimmed, or a notice
/// where nothing matched.
pub open spec fn weather_text(groups: Option<Vec<Option<String>>>) -> Seq<char> {
    match groups {
        None => "Weather data not available"@,
        Some(g) => trimmed(group_text(g@, 1) + " "@ + group_text(g@, 2)),
    }
}

/// The weather pattern could not be compiled.
#[derive(PartialEq, Eq, Structural, Debug, Clone, Copy)]
pub enum WeatherError {
    Pattern,
}

/// Collection of internal utilities for widgets: the decisions behind their text.
pub struct Internal;

impl Internal {
    /// Whether `text` is set as markup rather than as plain text.
    pub fn uses_markup(text: &str) -> (r: bool)
        ensures
            r == is_markup(text@),
    {
        let chars = chars_of(text);
        contains_chars(&chars, &chars_of("</")) && contains_chars(&chars, &chars_of(">"))
    }

    /// The strongest of the access points' signal strengths, 0 when there is none.
    pub fn strongest_signal(strengths: &Vec<u8>) -> (r: u8)
        ensures
            r == strongest(strengths@),
    {
        let mut best: u8 = 0;
        let mut i: usize = 0;
        while i < strengths.len()
            invariant
                i <= strengths.len(),
                best == strongest(strengths@.take(i as int)),
            decreases strengths.len() - i,
        {
            assert(strengths@.take(i + 1).drop_last() == strengths@.take(i as int));
            if strengths[i] > best {
                best = strengths[i];
            }
            i += 1;
        }
        assert(strengths@.take(i as int) == strengths@);
        best
    }

    /// The bar drawn for a signal strength in percent.
    pub fn wifi_bars(strength: u8) -> (r: String)
        ensures
            r@ == signal_bars(strength),
    {
        let bars = if strength == 0 {
            "\u{2591}\u{2591}\u{2591}\u{2591}\u{2591}"
        } else if strength <= 20 {
            "\u{2582}\u{fe0e}\u{2591}\u{2591}\u{2591}\u{2591}"
        } else if strength <= 40 {
            "\u{2582}\u{2583}\u{fe0e}\u{2591}\u{2591}\u{2591}"
        } else if strength <= 60 {
            "\u{2582}\u{2583}\u{2584}\u{fe0e}\u{2591}\u{2591}"
        } else if strength <= 80 {
            "\u{2582}\u{2583}\u{2584}\u{2585}\u{fe0e}\u{2591}"
        } else if strength <= 100 {
            "\u{2582}\u{2583}\u{2584}\u{2585}\u{2586}"
        } else {
            "X"
        };
        bars.to_owned()
    }

    /// The Wi-Fi status of a device from its access points' strengths: the bar
    /// of the strongest one, the empty bar when there is none.
    pub fn wifi_status(strengths: &Vec<u8>) -> (r: String)
        ensures
            r@ == signal_bars(strongest(strengths@)),
    {
        Internal::wifi_bars(Internal::strongest_signal(strengths))
    }
    /// The volume level within a volume description such as
    /// "0: 45% 1: 45%": its first word that ends with a percent sign, "0%" where none does.
    pub fn volume_level(description: &str) -> (r: String)
        ensures
            is_volume_level(description@, r@),
    {
        let s = chars_of(description);
        let n = s.len();
        let mut i: usize = 0;
        loop
            invariant
                s@ == description@,
                n == s.len(),
                i <= n,
                i == 0 || i == n || white_space(s@[i as int]) || white_space(s@[i - 1]),
                forall|i2: int, j2: int| #[trigger]
                    is_percent_word(s@, i2, j2) && i2 < i ==> false,
            decreases n - i,
        {
            let ghost top = i;
            while i < n && is_white_space(s[i])
                invariant
                    s@ == description@,
                    n == s.len(),
                    top <= i <= n,
                    top == 0 || top == n || white_space(s@[top as int]) || white_space(s@[top - 1]),
                    forall|k: int| top <= k < i ==> white_space(#[trigger] s@[k]),
                    forall|i2: int, j2: int| #[trigger]
                        is_percent_word(s@, i2, j2) && i2 < top ==> false,
                decreases n - i,
            {
                i += 1;
            }
            if i == n {
                assert forall|i2: int, j2: int| !#[trigger] is_percent_word(s@, i2, j2) by {
                    if is_percent_word(s@, i2, j2) && i2 >= top {
                        assert(white_space(s@[i2]));
                    }
                }
                proof {
                    reveal_strlit("0%");
                }
                return "0%".to_owned();
            }
            let start = i;
            assert(start == 0 || white_space(s@[start - 1])) by {
                if start > top {
                    assert(white_space(s@[start - 1]));
                }
            }
            while i < n && !is_white_space(s[i])
                invariant
                    s@ == description@,
                    n == s.len(),
                    start < n,
                    start <= i <= n,
                    forall|k: int| start <= k < i ==> !white_space(#[trigger] s@[k]),
                decreases n - i,
            {
                i += 1;
            }
            let end = i;
            assert(is_word(s@, start as int, end as int));
            assert forall|i2: int, j2: int|
                is_percent_word(s@, i2, j2) && i2 < start implies false by {
                if i2 >= top {
                    assert(white_space(s@[i2]));
                }
            }
            assert forall|j2: int| is_word(s@, start as int, j2) implies j2 == end by {
                if j2 < end {
                    assert(!white_space(s@[j2]));
                } else if j2 > end {
                    assert(!white_space(s@[end as int]));
                }
            }
            if s[end - 1] == '%' {
                let word = description.substring_char(start, end).to_owned();
                assert(is_percent_word(description@, start as int, end as int));
                return word;
            }
            assert forall|i2: int, j2: int|
                is_percent_word(s@, i2, j2) && i2 < end implies false by {
                if i2 > start {
                    assert(!white_space(s@[i2 - 1]));
                }
            }
        }
    }
    /// The text of group `i`, empty where it is missing or took no part.
    fn group_or_empty(groups: &Vec<Option<String>>, i: usize) -> (r: String)
        ensures
            r@ == group_text(groups@, i as int),
    {
        if i < groups.len() {
            match &groups[i] {
                Some(t) => t.clone(),
                None => String::new(),
            }
        } else {
            String::new()
        }
    }

    /// The weather line for the groups of a search of the weather report.
    pub fn weather_from_captures(groups: &Option<Vec<Option<String>>>) -> (r: String)
        ensures
            r@ == weather_text(*groups),
    {
        match groups {
            None => "Weather data not available".to_owned(),
            Some(g) => {
                let emoji = Internal::group_or_empty(g, 1);
                let temperature = Internal::group_or_empty(g, 2);
                let line = emoji.concat(" ").concat(temperature.as_str());
                trim(line.as_str())
            },
        }
    }

    /// The weather line within a weather report: the temperature in degrees
    /// Fahrenheit that the report gives, or a notice where it gives none.
    pub fn weather_summary(report: &str) -> (r: Result<String, WeatherError>)
        ensures
            r matches Ok(line) ==> exists|groups: Option<Vec<Option<String>>>|
                fits_text(groups, report@) && line@ == weather_text(groups),
    {
        match regex::Regex::new(r"\s*([\d]+°F)") {
            Err(_) => Err(WeatherError::Pattern),
            Ok(re) => {
                let groups = capture_groups(&re, report);
                Ok(Internal::weather_from_captures(&groups))
            },
        }
    }
}

} // verus!
