//! How the client derives its participant id from its configuration.
use vstd::prelude::*;
use crate::client::types::MeetingConfig;
use crate::text::{is_blank, is_whitespace_char, push_char, spec_is_blank, spec_is_whitespace, spec_trim, trim};

verus! {

broadcast use vstd::string::group_string_axioms;

/// The lowercase mapping of a character, as `char::to_lowercase` yields it.
pub uninterp spec fn lowercase_of(c: char) -> Seq<char>;

/// `char::to_lowercase` (std): the Unicode lowercase mapping of `c`, one
/// or more characters; an ASCII letter maps to its lower case and any
/// other ASCII character to itself. Beyond ASCII the mapping is named, not
/// stated.
#[verifier::external_body]
fn to_lowercase_chars(c: char) -> (r: Vec<char>)
    ensures
        r@ == lowercase_of(c),
        r@.len() >= 1,
        (c as u32) < 128 ==> r@ == seq![
            if 'A' <= c && c <= 'Z' {
                ((c as u32) + 32) as char
            } else {
                c
            },
        ],
{
    c.to_lowercase().collect()
}

/// What a lowered character becomes in a participant id: ASCII letters,
/// digits, `-` and `_` stay, white space becomes `-`, anything else goes.
pub open spec fn spec_id_char(c: char) -> Seq<char> {
    if ('a' <= c && c <= 'z') || ('A' <= c && c <= 'Z') || ('0' <= c && c <= '9') || c == '-' || c
        == '_' {
        seq![c]
    } else if spec_is_whitespace(c) {
        seq!['-']
    } else {
        Seq::empty()
    }
}

/// The id characters of a lowered text.
pub open spec fn spec_id_chars(t: Seq<char>) -> Seq<char>
    decreases t.len(),
{
    if t.len() == 0 {
        Seq::empty()
    } else {
        spec_id_chars(t.drop_last()) + spec_id_char(t.last())
    }
}

/// The lowercase mapping of one character: an ASCII letter becomes its
/// lower case and any other ASCII character stays; beyond ASCII, the
/// Unicode mapping.
pub open spec fn spec_lower_char(c: char) -> Seq<char> {
    if (c as u32) < 128 {
        seq![
            if 'A' <= c && c <= 'Z' {
                ((c as u32) + 32) as char
            } else {
                c
            },
        ]
    } else {
        lowercase_of(c)
    }
}

/// The lowercase mapping of a whole text, character by character.
pub open spec fn spec_lower_all(s: Seq<char>) -> Seq<char>
    decreases s.len(),
{
    if s.len() == 0 {
        Seq::empty()
    } else {
        spec_lower_all(s.drop_last()) + spec_lower_char(s.last())
    }
}

proof fn lemma_id_chars_concat(a: Seq<char>, b: Seq<char>)
    ensures
        spec_id_chars(a + b) == spec_id_chars(a) + spec_id_chars(b),
    decreases b.len(),
{
    if b.len() == 0 {
        assert(a + b =~= a);
        assert(spec_id_chars(a) + spec_id_chars(b) =~= spec_id_chars(a));
    } else {
        lemma_id_chars_concat(a, b.drop_last());
        assert((a + b).drop_last() =~= a + b.drop_last());
        assert((a + b).last() == b.last());
        assert(spec_id_chars(a) + spec_id_chars(b.drop_last()) + spec_id_char(b.last())
            =~= spec_id_chars(a) + (spec_id_chars(b.drop_last()) + spec_id_char(b.last())));
    }
}

/// A participant id made from a name: trimmed (a blank name counts as
/// `participant`), lowered, with ASCII letters, digits, `-` and `_` kept,
/// white space turned into `-` and everything else dropped; when nothing
/// is left, `participant`. For ASCII text every step is stated, so the id
/// is fully determined.
pub open spec fn spec_normalize_participant_id(raw: Seq<char>) -> Seq<char> {
    let source = spec_trim(raw);
    let base = if source.len() == 0 {
        "participant"@
    } else {
        source
    };
    let normalized = spec_id_chars(spec_lower_all(base));
    if normalized.len() == 0 {
        "participant"@
    } else {
        normalized
    }
}

/// Normalizes a name into a participant id.
pub fn normalize_participant_id(raw: &str) -> (r: String)
    ensures
        r@ == spec_normalize_participant_id(raw@),
{
    let source = trim(raw);
    let base: &str = if source.unicode_len() == 0 {
        "participant"
    } else {
        source
    };
    let mut out = String::new();
    let mut it = base.chars();
    let ghost mut k: int = 0;
    loop
        invariant
            0 <= k <= base@.len(),
            vstd::std_specs::iter::IteratorSpec::remaining(&it) == base@.skip(k),
            vstd::std_specs::iter::IteratorSpec::obeys_prophetic_iter_laws(&it),
            out@ == spec_id_chars(spec_lower_all(base@.take(k))),
        ensures
            out@ == spec_id_chars(spec_lower_all(base@)),
        decreases base@.len() - k,
    {
        match it.next() {
            None => {
                proof {
                    assert(base@.take(k) =~= base@);
                }
                break;
            },
            Some(c) => {
                assert(base@[k] == c);
                let lowered = to_lowercase_chars(c);
                let ghost before = out@;
                let mut j: usize = 0;
                while j < lowered.len()
                    invariant
                        j <= lowered@.len(),
                        out@ == before + spec_id_chars(lowered@.take(j as int)),
                    decreases lowered@.len() - j,
                {
                    let d = lowered[j];
                    proof {
                        assert(lowered@.take(j + 1).drop_last() =~= lowered@.take(j as int));
                        assert(lowered@.take(j + 1).last() == d);
                    }
                    if ('a' <= d && d <= 'z') || ('A' <= d && d <= 'Z') || ('0' <= d && d <= '9')
                        || d == '-' || d == '_' {
                        push_char(&mut out, d);
                        assert(out@ =~= before + spec_id_chars(lowered@.take(j + 1)));
                    } else if is_whitespace_char(d) {
                        push_char(&mut out, '-');
                        assert(out@ =~= before + spec_id_chars(lowered@.take(j + 1)));
                    } else {
                        assert(out@ =~= before + spec_id_chars(lowered@.take(j + 1)));
                    }
                    j = j + 1;
                }
                proof {
                    assert(lowered@.take(lowered@.len() as int) =~= lowered@);
                    assert(base@.take(k + 1).drop_last() =~= base@.take(k));
                    assert(base@.take(k + 1).last() == c);
                    lemma_id_chars_concat(spec_lower_all(base@.take(k)), spec_lower_char(c));
                    k = k + 1;
                }
            },
        }
    }
    if out.unicode_len() == 0 {
        "participant".to_owned()
    } else {
        out
    }
}

/// The participant id a client announces: its configured id when that is
/// not blank, else its name, normalized.
pub open spec fn spec_resolved_participant_id(config: MeetingConfig) -> Seq<char> {
    if !spec_is_blank(config.participant_id@) {
        spec_normalize_participant_id(config.participant_id@)
    } else {
        spec_normalize_participant_id(config.participant_name@)
    }
}

/// The participant id a client announces.
pub fn resolved_participant_id(config: &MeetingConfig) -> (r: String)
    ensures
        r@ == spec_resolved_participant_id(*config),
{
    if !is_blank(config.participant_id.as_str()) {
        normalize_participant_id(config.participant_id.as_str())
    } else {
        normalize_participant_id(config.participant_name.as_str())
    }
}

} // verus!
