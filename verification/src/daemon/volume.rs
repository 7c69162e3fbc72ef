//! The local output volume, as the sound server's tool reports and takes it.
use crate::text;
use vstd::prelude::*;

verus! {

/// The message of a volume that is no percentage.
pub const NOT_A_PERCENTAGE: &'static str = "volume is a percentage from 0 to 100";

/// The local output volume.
#[derive(Debug, Clone, Copy, PartialEq, Eq, Structural)]
pub struct LocalVolume {
    /// Percentage, at most 100.
    pub percent: u8,
    /// Whether output is muted.
    pub muted: bool,
}

/// The percentage that a word gives: a number before a `%`, taken as full
/// where it is above 100.
pub open spec fn percent_word(word: Seq<char>) -> Option<u8> {
    if word.len() == 0 || word.last() != '%' || word[0] == '-' {
        None
    } else {
        match text::number(word.drop_last()) {
            Some(n) => Some(
                if n > 100 {
                    100
                } else {
                    n as u8
                },
            ),
            None => None,
        }
    }
}

/// The percentage that the first word with one gives.
pub open spec fn first_percent(words: Seq<Seq<char>>) -> Option<u8>
    decreases words.len(),
{
    if words.len() == 0 {
        None
    } else {
        match percent_word(words[0]) {
            Some(n) => Some(n),
            None => first_percent(words.drop_first()),
        }
    }
}

/// What the reports on volume and mute say; nothing where no percentage is
/// reported.
pub open spec fn reported(volume: Seq<char>, mute: Seq<char>) -> Option<LocalVolume> {
    match first_percent(text::words(volume)) {
        Some(percent) => Some(
            LocalVolume { percent, muted: text::words(mute).contains("yes"@) },
        ),
        None => None,
    }
}

fn read_percent_word(word: &str) -> (r: Option<u8>)
    ensures
        r == percent_word(word@),
{
    let chars = text::to_chars(word);
    let n = chars.len();
    if n == 0 || chars[n - 1] != '%' || chars[0] == '-' {
        return None;
    }
    let digits = text::range_string(&chars, 0, n - 1);
    assert(digits@ =~= word@.drop_last());
    if let Some(percent) = text::parse_unsigned(digits.as_str(), 100) {
        return Some(percent as u8);
    }
    if text::is_number(digits.as_str()) {
        Some(100)
    } else {
        None
    }
}

/// Reads the reports on volume and mute.
pub fn read_volume(volume: &str, mute: &str) -> (r: Option<LocalVolume>)
    ensures
        r == reported(volume@, mute@),
{
    let words = text::split_words(volume);
    let ghost views = text::words(volume@);
    let mut i: usize = 0;
    assert(views.skip(0) =~= views);
    while i < words.len()
        invariant
            i <= words.len(),
            views == text::words(volume@),
            views == text::texts(words@),
            first_percent(views) == first_percent(views.skip(i as int)),
        decreases words.len() - i,
    {
        proof {
            assert(views.skip(i as int)[0] == words@[i as int]@);
            assert(views.skip(i as int).drop_first() =~= views.skip(i + 1));
        }
        if let Some(percent) = read_percent_word(words[i].as_str()) {
            let muted = text::list_contains(&text::split_words(mute), "yes");
            return Some(LocalVolume { percent, muted });
        }
        i += 1;
    }
    None
}

/// How the tool is told a percentage; none above 100 is.
pub fn volume_argument(percent: u8) -> (r: Option<String>)
    ensures
        match r {
            Some(t) => percent <= 100 && t@ == text::decimal(percent as nat) + "%"@,
            None => percent > 100,
        },
{
    if percent > 100 {
        return None;
    }
    Some(text::decimal_text(percent as u128).concat("%"))
}

/// A word that gives a percentage is read as that percentage, and as 100 where
/// it is above; a word without a number or without the sign gives none.
pub proof fn law_percentages_are_read_as_written(n: nat, word: Seq<char>)
    ensures
        n <= 100 ==> percent_word(text::decimal(n).push('%')) == Some(n as u8),
        n > 100 ==> percent_word(text::decimal(n).push('%')) == Some(100u8),
        word.len() > 0 && word.last() != '%' ==> percent_word(word) is None,
{
    text::law_numbers_read_back(n);
    text::lemma_decimal_reads_back(n);
    let w = text::decimal(n).push('%');
    assert(w.drop_last() =~= text::decimal(n));
    text::lemma_first_digit(text::decimal(n));
}

/// The volume is the first percentage of the report, and output is muted
/// exactly where the report on that says yes.
pub proof fn law_reports_give_volume_and_mute(volume: Seq<char>, mute: Seq<char>, k: int)
    requires
        0 <= k < text::words(volume).len(),
        percent_word(text::words(volume)[k]) is Some,
        forall|i: int| 0 <= i < k ==> percent_word(#[trigger] text::words(volume)[i]) is None,
    ensures
        reported(volume, mute) matches Some(v) && Some(v.percent) == percent_word(
            text::words(volume)[k],
        ) && v.muted == text::words(mute).contains("yes"@),
{
    lemma_first_percent(text::words(volume), k);
}

proof fn lemma_first_percent(words: Seq<Seq<char>>, k: int)
    requires
        0 <= k < words.len(),
        percent_word(words[k]) is Some,
        forall|i: int| 0 <= i < k ==> percent_word(#[trigger] words[i]) is None,
    ensures
        first_percent(words) == percent_word(words[k]),
    decreases words.len(),
{
    if k > 0 {
        let rest = words.drop_first();
        assert(rest[k - 1] == words[k]);
        assert forall|i: int| 0 <= i < k - 1 implies percent_word(#[trigger] rest[i]) is None by {
            assert(rest[i] == words[i + 1]);
        }
        assert(percent_word(words[0]) is None);
        lemma_first_percent(rest, k - 1);
    }
}

} // verus!
