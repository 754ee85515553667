//! The persisted configuration file: its exact text, and a parser-level
//! statement that the text is well-formed INI with one section and two keys
//! that lead back to the values that were written.

use crate::decimal::{dec_of, dec_val, is_digit, lemma_dec_of_digits, lemma_dec_val_of_dec_of,
    u64_to_dec};
use crate::encode::{is_base64_char, is_base64_text};
use vstd::prelude::*;

verus! {

/// The full text of the configuration file for a given account identifier
/// and ticket text: one section header and two key-value lines, each line
/// ended by a line feed, nothing else.
pub open spec fn config_text(id: nat, ticket: Seq<char>) -> Seq<char> {
    "[user::general]\n"@ + "account_steamid="@ + dec_of(id) + "\nticket="@ + ticket + "\n"@
}

/// Whether `c` occurs in `s`.
pub open spec fn has_char(s: Seq<char>, c: char) -> bool {
    exists|i: int| 0 <= i < s.len() && s[i] == c
}

/// The length of the longest digit prefix of `s`.
pub open spec fn count_digits(s: Seq<char>) -> nat
    decreases s.len(),
{
    if s.len() > 0 && is_digit(s[0]) {
        1 + count_digits(s.drop_first())
    } else {
        0
    }
}

/// Reads a configuration file back. The result is `Some` exactly on texts of
/// the persisted shape: the single section header `[user::general]` on the
/// first line, a second line holding the key `account_steamid` with a
/// non-empty run of decimal digits as its value, a third line holding the
/// key `ticket` with a value free of line breaks, and a final line feed with
/// nothing after it. This is what "valid INI text with exactly one section
/// and exactly two keys" means for this file.
pub open spec fn spec_parse_config(text: Seq<char>) -> Option<(nat, Seq<char>)> {
    if text.len() >= 32 && text.subrange(0, 16) == "[user::general]\n"@ && text.subrange(16, 32)
        == "account_steamid="@ {
        let d = count_digits(text.skip(32));
        let p = 32 + d as int;
        if d >= 1 && p + 9 <= text.len() && text.subrange(p, p + 8) == "\nticket="@ {
            let value = text.subrange(p + 8, text.len() - 1);
            if text.last() == '\n' && !has_char(value, '\n') {
                Some((dec_val(text.subrange(32, p)), value))
            } else {
                None
            }
        } else {
            None
        }
    } else {
        None
    }
}

/// The digit count of a sequence that starts with an all-digit block and
/// continues with a non-digit is the block's length.
proof fn lemma_count_digits_append(a: Seq<char>, b: Seq<char>)
    requires
        forall|i: int| 0 <= i < a.len() ==> is_digit(#[trigger] a[i]),
        b.len() > 0,
        !is_digit(b[0]),
    ensures
        count_digits(a + b) == a.len(),
    decreases a.len(),
{
    if a.len() == 0 {
        assert(a + b =~= b);
    } else {
        assert((a + b)[0] == a[0]);
        assert((a + b).drop_first() =~= a.drop_first() + b);
        lemma_count_digits_append(a.drop_first(), b);
    }
}

/// Parsing the rendered configuration text recovers the identifier and the
/// ticket text exactly, whenever the ticket text holds no line break.
pub proof fn lemma_parse_config_round_trip(id: nat, ticket: Seq<char>)
    requires
        !has_char(ticket, '\n'),
    ensures
        spec_parse_config(config_text(id, ticket)) == Some((id, ticket)),
{
    reveal_strlit("[user::general]\n");
    reveal_strlit("account_steamid=");
    reveal_strlit("\nticket=");
    reveal_strlit("\n");
    let text = config_text(id, ticket);
    let d = dec_of(id);
    lemma_dec_of_digits(id);
    let tail = "\nticket="@ + ticket + "\n"@;
    assert(text.len() == 32 + d.len() + 8 + ticket.len() + 1);
    assert(text.subrange(0, 16) =~= "[user::general]\n"@);
    assert(text.subrange(16, 32) =~= "account_steamid="@);
    assert(text.skip(32) =~= d + tail);
    assert(tail[0] == '\n');
    lemma_count_digits_append(d, tail);
    assert(count_digits(text.skip(32)) == d.len());
    let p = 32 + d.len() as int;
    assert(text.subrange(p, p + 8) =~= "\nticket="@);
    assert(text.subrange(32, p) =~= d);
    lemma_dec_val_of_dec_of(id);
    assert(text.subrange(p + 8, text.len() - 1) =~= ticket);
    assert(text.last() == '\n');
}

/// The law behind the persisted file: for every account identifier and every
/// ticket byte sequence, the file text rendered from the identifier and the
/// base64 text of the bytes is well-formed INI in the sense of
/// `spec_parse_config`, and parsing it back yields exactly the identifier
/// and the base64 text (which in turn decodes to the original bytes, see
/// `crate::encode::ticket_round_trips`).
pub proof fn lemma_persisted_config_round_trip(id: nat, ticket: Seq<char>)
    requires
        is_base64_text(ticket),
    ensures
        spec_parse_config(config_text(id, ticket)) == Some((id, ticket)),
{
    assert(!has_char(ticket, '\n')) by {
        if has_char(ticket, '\n') {
            let i = choose|i: int| 0 <= i < ticket.len() && ticket[i] == '\n';
            assert(is_base64_char(ticket[i]));
        }
    }
    lemma_parse_config_round_trip(id, ticket);
}

/// Renders the configuration file text for an account identifier and a
/// ticket text.
pub fn render_config(steamid: u64, ticket: &str) -> (r: String)
    ensures
        r@ == config_text(steamid as nat, ticket@),
{
    let mut s = String::from_str("[user::general]\n");
    s.append("account_steamid=");
    let digits = u64_to_dec(steamid);
    s.append(digits.as_str());
    s.append("\nticket=");
    s.append(ticket);
    s.append("\n");
    proof {
        assert(s@ =~= config_text(steamid as nat, ticket@));
    }
    s
}

} // verus!
