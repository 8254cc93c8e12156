use vstd::prelude::*;
use vstd::string::StrSliceExecFns;
use vstd::string::StringExecFns;

use crate::event::EventData;
use crate::event::EventView;
use crate::strutil::dec_of;
use crate::strutil::hex_digit;
use crate::strutil::prefix_chars;
use crate::strutil::prefix_of;
use crate::strutil::push_char;
use crate::strutil::u64_to_dec;

verus! {

/// How one character is written inside a JSON string: quote and backslash
/// get a backslash escape, control characters a short escape where JSON has
/// one and a `\u00..` escape otherwise, everything else stands as itself.
pub open spec fn esc_char(c: char) -> Seq<char> {
    if c == '"' {
        seq!['\\', '"']
    } else if c == '\\' {
        seq!['\\', '\\']
    } else if (c as u32) < 32 {
        if c == '\x08' {
            seq!['\\', 'b']
        } else if c == '\x09' {
            seq!['\\', 't']
        } else if c == '\x0A' {
            seq!['\\', 'n']
        } else if c == '\x0C' {
            seq!['\\', 'f']
        } else if c == '\x0D' {
            seq!['\\', 'r']
        } else {
            seq!['\\', 'u', '0', '0', hex_digit(((c as u32) / 16) as u8), hex_digit(
                ((c as u32) % 16) as u8,
            )]
        }
    } else {
        seq![c]
    }
}

/// A whole string escaped for JSON.
pub open spec fn json_escaped(s: Seq<char>) -> Seq<char>
    decreases s.len(),
{
    if s.len() == 0 {
        Seq::empty()
    } else {
        json_escaped(s.drop_last()) + esc_char(s.last())
    }
}

/// A JSON string value: the escaped text between double quotes.
pub open spec fn json_string(s: Seq<char>) -> Seq<char> {
    seq!['"'] + json_escaped(s) + seq!['"']
}

/// An optional number: its decimal rendering, or `null`.
pub open spec fn json_opt_u64(v: Option<u64>) -> Seq<char> {
    match v {
        Some(n) => dec_of(n as int),
        None => "null"@,
    }
}

/// An optional string: a JSON string, or `null`.
pub open spec fn json_opt_string(v: Option<Seq<char>>) -> Seq<char> {
    match v {
        Some(s) => json_string(s),
        None => "null"@,
    }
}

/// The elements of the topics array, comma separated.
pub open spec fn json_topics(ts: Seq<Seq<char>>) -> Seq<char>
    decreases ts.len(),
{
    if ts.len() == 0 {
        Seq::empty()
    } else if ts.len() == 1 {
        json_string(ts[0])
    } else {
        json_topics(ts.drop_last()) + seq![','] + json_string(ts.last())
    }
}

/// The canonical event record as one JSON object, fields in declaration
/// order, no inserted whitespace.
pub open spec fn json_of_event(m: EventView) -> Seq<char> {
    "{\"timestamp\":"@ + json_string(m.timestamp) + ",\"chain_id\":"@ + json_opt_u64(m.chain_id)
        + ",\"chain_name\":"@ + json_string(m.chain_name) + ",\"block_number\":"@ + dec_of(
        m.block_number as int,
    ) + ",\"transaction_hash\":"@ + json_string(m.transaction_hash) + ",\"log_index\":"@ + dec_of(
        m.log_index as int,
    ) + ",\"contract_address\":"@ + json_string(m.contract_address) + ",\"topics\":["@
        + json_topics(m.topics) + "]"@ + ",\"data\":"@ + json_string(m.data)
        + ",\"event_signature\":"@ + json_opt_string(m.event_signature) + "}"@
}

/// Append `s`, JSON-escaped, to `out`.
fn append_escaped(out: &mut String, s: &str)
    ensures
        final(out)@ == old(out)@ + json_escaped(s@),
{
    let n = s.unicode_len();
    let mut i: usize = 0;
    while i < n
        invariant
            n == s@.len(),
            i <= n,
            out@ == old(out)@ + json_escaped(s@.take(i as int)),
        decreases n - i,
    {
        let c = s.get_char(i);
        if c == '"' {
            push_char(out, '\\');
            push_char(out, '"');
        } else if c == '\\' {
            push_char(out, '\\');
            push_char(out, '\\');
        } else if (c as u32) < 32 {
            if c == '\x08' {
                push_char(out, '\\');
                push_char(out, 'b');
            } else if c == '\x09' {
                push_char(out, '\\');
                push_char(out, 't');
            } else if c == '\x0A' {
                push_char(out, '\\');
                push_char(out, 'n');
            } else if c == '\x0C' {
                push_char(out, '\\');
                push_char(out, 'f');
            } else if c == '\x0D' {
                push_char(out, '\\');
                push_char(out, 'r');
            } else {
                let v = c as u32;
                push_char(out, '\\');
                push_char(out, 'u');
                push_char(out, '0');
                push_char(out, '0');
                push_char(out, crate::strutil::hex_digit_exec((v / 16) as u8));
                push_char(out, crate::strutil::hex_digit_exec((v % 16) as u8));
            }
        } else {
            push_char(out, c);
        }
        proof {
            assert(s@.take(i + 1).drop_last() =~= s@.take(i as int));
            assert(s@.take(i + 1).last() == s@[i as int]);
            assert(out@ =~= old(out)@ + json_escaped(s@.take(i + 1)));
        }
        i += 1;
    }
    proof {
        assert(s@.take(n as int) =~= s@);
    }
}

/// Append `s` as a JSON string value to `out`.
fn append_json_string(out: &mut String, s: &str)
    ensures
        final(out)@ == old(out)@ + json_string(s@),
{
    push_char(out, '"');
    append_escaped(out, s);
    push_char(out, '"');
    proof {
        assert(out@ =~= old(out)@ + json_string(s@));
    }
}

/// Append the decimal rendering of `n` to `out`.
fn append_dec(out: &mut String, n: u64)
    ensures
        final(out)@ == old(out)@ + dec_of(n as int),
{
    let d = u64_to_dec(n);
    out.append(d.as_str());
}

/// Render the record as the one-line JSON object of `json_of_event`: what
/// the json console format prints, the file sink appends, and the webhook
/// sink posts.
pub fn render_json(e: &EventData) -> (r: String)
    ensures
        r@ == json_of_event(e.model()),
{
    let mut out = String::from_str("{\"timestamp\":");
    append_json_string(&mut out, e.timestamp.as_str());
    out.append(",\"chain_id\":");
    match e.chain_id {
        Some(n) => append_dec(&mut out, n),
        None => out.append("null"),
    }
    out.append(",\"chain_name\":");
    append_json_string(&mut out, e.chain_name.as_str());
    out.append(",\"block_number\":");
    append_dec(&mut out, e.block_number);
    out.append(",\"transaction_hash\":");
    append_json_string(&mut out, e.transaction_hash.as_str());
    out.append(",\"log_index\":");
    append_dec(&mut out, e.log_index);
    out.append(",\"contract_address\":");
    append_json_string(&mut out, e.contract_address.as_str());
    out.append(",\"topics\":[");
    let ghost topics_prefix = out@;
    let n = e.topics.len();
    let mut i: usize = 0;
    while i < n
        invariant
            n == e.topics@.len(),
            i <= n,
            out@ == topics_prefix + json_topics(e.model().topics.take(i as int)),
        decreases n - i,
    {
        if i > 0 {
            push_char(&mut out, ',');
        }
        append_json_string(&mut out, e.topics[i].as_str());
        proof {
            let ts = e.model().topics;
            assert(ts.take(i + 1).drop_last() =~= ts.take(i as int));
            assert(ts.take(i + 1).last() == ts[i as int]);
            assert(ts[i as int] == e.topics@[i as int]@);
            assert(out@ =~= topics_prefix + json_topics(ts.take(i + 1)));
        }
        i += 1;
    }
    proof {
        assert(e.model().topics.take(n as int) =~= e.model().topics);
    }
    out.append("]");
    out.append(",\"data\":");
    append_json_string(&mut out, e.data.as_str());
    out.append(",\"event_signature\":");
    match &e.event_signature {
        Some(s) => append_json_string(&mut out, s.as_str()),
        None => out.append("null"),
    }
    out.append("}");
    proof {
        assert(out@ =~= json_of_event(e.model()));
    }
    out
}

/// The single-line console format: timestamp, block, transaction hash and
/// contract address truncated to a ten-character prefix, and the topic count.
pub open spec fn compact_of(m: EventView) -> Seq<char> {
    "["@ + m.timestamp + "] Block "@ + dec_of(m.block_number as int) + " | Tx "@ + prefix_of(
        m.transaction_hash,
        10,
    ) + " | Contract "@ + prefix_of(m.contract_address, 10) + " | Topics: "@ + dec_of(
        m.topics.len() as int,
    )
}

/// Render the compact single-line console format.
pub fn render_compact(e: &EventData) -> (r: String)
    ensures
        r@ == compact_of(e.model()),
{
    let mut out = String::from_str("[");
    out.append(e.timestamp.as_str());
    out.append("] Block ");
    append_dec(&mut out, e.block_number);
    out.append(" | Tx ");
    let tx = prefix_chars(e.transaction_hash.as_str(), 10);
    out.append(tx.as_str());
    out.append(" | Contract ");
    let addr = prefix_chars(e.contract_address.as_str(), 10);
    out.append(addr.as_str());
    out.append(" | Topics: ");
    let count = e.topics.len();
    append_dec(&mut out, count as u64);
    proof {
        assert(out@ =~= compact_of(e.model()));
    }
    out
}

/// One bordered line per topic, each numbered by its position.
pub open spec fn pretty_topic_lines(ts: Seq<Seq<char>>) -> Seq<char>
    decreases ts.len(),
{
    if ts.len() == 0 {
        Seq::empty()
    } else {
        pretty_topic_lines(ts.drop_last()) + "\u{2551}   ["@ + dec_of(ts.len() - 1) + "] "@
            + ts.last() + "\n"@
    }
}

/// The multi-line bordered console format, newline-terminated lines, ending
/// with the closing border (the caller's line write supplies the blank line
/// that follows it).
pub open spec fn pretty_of(m: EventView) -> Seq<char> {
    "\n\u{2554}\u{2550}\u{2550}\u{2550}\u{2550}\u{2550}\u{2550}\u{2550}\u{2550}\u{2550}\u{2550}\u{2550}\u{2550}\u{2550}\u{2550}\u{2550}\u{2550}\u{2550}\u{2550}\u{2550}\u{2550}\u{2550}\u{2550}\u{2550}\u{2550}\u{2550}\u{2550}\u{2550}\u{2550}\u{2550}\u{2550}\u{2550}\u{2550}\u{2550}\u{2550}\u{2550}\u{2550}\u{2550}\u{2550}\u{2550}\u{2550}\u{2550}\u{2550}\u{2550}\u{2550}\u{2550}\u{2550}\u{2550}\u{2550}\u{2550}\u{2550}\u{2550}\u{2550}\u{2550}\u{2550}\u{2550}\u{2550}\u{2550}\u{2550}\u{2550}\u{2550}\n"@
        + "\u{2551} Event Detected!\n"@ + "\u{2551} Time: "@ + m.timestamp + "\n"@
        + "\u{2551} Chain: "@ + m.chain_name + " (ID: "@ + dec_of(
        match m.chain_id {
            Some(n) => n as int,
            None => 0,
        },
    ) + ")\n"@ + "\u{2551} Block: "@ + dec_of(m.block_number as int) + "\n"@
        + "\u{2551} Transaction: "@ + m.transaction_hash + "\n"@ + "\u{2551} Log Index: "@
        + dec_of(m.log_index as int) + "\n"@ + "\u{2551} Contract: "@ + m.contract_address + "\n"@
        + (match m.event_signature {
        Some(s) => "\u{2551} Event: "@ + s + "\n"@,
        None => Seq::empty(),
    })
        + "\u{2560}\u{2550}\u{2550}\u{2550}\u{2550}\u{2550}\u{2550}\u{2550}\u{2550}\u{2550}\u{2550}\u{2550}\u{2550}\u{2550}\u{2550}\u{2550}\u{2550}\u{2550}\u{2550}\u{2550}\u{2550}\u{2550}\u{2550}\u{2550}\u{2550}\u{2550}\u{2550}\u{2550}\u{2550}\u{2550}\u{2550}\u{2550}\u{2550}\u{2550}\u{2550}\u{2550}\u{2550}\u{2550}\u{2550}\u{2550}\u{2550}\u{2550}\u{2550}\u{2550}\u{2550}\u{2550}\u{2550}\u{2550}\u{2550}\u{2550}\u{2550}\u{2550}\u{2550}\u{2550}\u{2550}\u{2550}\u{2550}\u{2550}\u{2550}\u{2550}\u{2550}\n"@
        + (if m.topics.len() > 0 {
        "\u{2551} Topics:\n"@ + pretty_topic_lines(m.topics)
    } else {
        Seq::empty()
    }) + (if m.data.len() > 0 {
        "\u{2551} Data: "@ + m.data + "\n"@
    } else {
        Seq::empty()
    })
        + "\u{255A}\u{2550}\u{2550}\u{2550}\u{2550}\u{2550}\u{2550}\u{2550}\u{2550}\u{2550}\u{2550}\u{2550}\u{2550}\u{2550}\u{2550}\u{2550}\u{2550}\u{2550}\u{2550}\u{2550}\u{2550}\u{2550}\u{2550}\u{2550}\u{2550}\u{2550}\u{2550}\u{2550}\u{2550}\u{2550}\u{2550}\u{2550}\u{2550}\u{2550}\u{2550}\u{2550}\u{2550}\u{2550}\u{2550}\u{2550}\u{2550}\u{2550}\u{2550}\u{2550}\u{2550}\u{2550}\u{2550}\u{2550}\u{2550}\u{2550}\u{2550}\u{2550}\u{2550}\u{2550}\u{2550}\u{2550}\u{2550}\u{2550}\u{2550}\u{2550}\u{2550}\n"@
}

/// Render the bordered multi-line console format.
#[verifier::rlimit(80)]
pub fn render_pretty(e: &EventData) -> (r: String)
    ensures
        r@ == pretty_of(e.model()),
{
    let mut out = String::from_str(
        "\n\u{2554}\u{2550}\u{2550}\u{2550}\u{2550}\u{2550}\u{2550}\u{2550}\u{2550}\u{2550}\u{2550}\u{2550}\u{2550}\u{2550}\u{2550}\u{2550}\u{2550}\u{2550}\u{2550}\u{2550}\u{2550}\u{2550}\u{2550}\u{2550}\u{2550}\u{2550}\u{2550}\u{2550}\u{2550}\u{2550}\u{2550}\u{2550}\u{2550}\u{2550}\u{2550}\u{2550}\u{2550}\u{2550}\u{2550}\u{2550}\u{2550}\u{2550}\u{2550}\u{2550}\u{2550}\u{2550}\u{2550}\u{2550}\u{2550}\u{2550}\u{2550}\u{2550}\u{2550}\u{2550}\u{2550}\u{2550}\u{2550}\u{2550}\u{2550}\u{2550}\u{2550}\n",
    );
    out.append("\u{2551} Event Detected!\n");
    out.append("\u{2551} Time: ");
    out.append(e.timestamp.as_str());
    out.append("\n");
    out.append("\u{2551} Chain: ");
    out.append(e.chain_name.as_str());
    out.append(" (ID: ");
    match e.chain_id {
        Some(n) => append_dec(&mut out, n),
        None => append_dec(&mut out, 0),
    }
    out.append(")\n");
    out.append("\u{2551} Block: ");
    append_dec(&mut out, e.block_number);
    out.append("\n");
    out.append("\u{2551} Transaction: ");
    out.append(e.transaction_hash.as_str());
    out.append("\n");
    out.append("\u{2551} Log Index: ");
    append_dec(&mut out, e.log_index);
    out.append("\n");
    out.append("\u{2551} Contract: ");
    out.append(e.contract_address.as_str());
    out.append("\n");
    match &e.event_signature {
        Some(s) => {
            out.append("\u{2551} Event: ");
            out.append(s.as_str());
            out.append("\n");
        },
        None => {},
    }
    out.append(
        "\u{2560}\u{2550}\u{2550}\u{2550}\u{2550}\u{2550}\u{2550}\u{2550}\u{2550}\u{2550}\u{2550}\u{2550}\u{2550}\u{2550}\u{2550}\u{2550}\u{2550}\u{2550}\u{2550}\u{2550}\u{2550}\u{2550}\u{2550}\u{2550}\u{2550}\u{2550}\u{2550}\u{2550}\u{2550}\u{2550}\u{2550}\u{2550}\u{2550}\u{2550}\u{2550}\u{2550}\u{2550}\u{2550}\u{2550}\u{2550}\u{2550}\u{2550}\u{2550}\u{2550}\u{2550}\u{2550}\u{2550}\u{2550}\u{2550}\u{2550}\u{2550}\u{2550}\u{2550}\u{2550}\u{2550}\u{2550}\u{2550}\u{2550}\u{2550}\u{2550}\u{2550}\n",
    );
    let ghost mid_prefix = out@;
    if e.topics.len() > 0 {
        out.append("\u{2551} Topics:\n");
        let ghost topics_prefix = out@;
        let n = e.topics.len();
        let mut i: usize = 0;
        while i < n
            invariant
                n == e.topics@.len(),
                n > 0,
                i <= n,
                out@ == topics_prefix + pretty_topic_lines(e.model().topics.take(i as int)),
            decreases n - i,
        {
            out.append("\u{2551}   [");
            append_dec(&mut out, i as u64);
            out.append("] ");
            out.append(e.topics[i].as_str());
            out.append("\n");
            proof {
                let ts = e.model().topics;
                assert(ts.take(i + 1).drop_last() =~= ts.take(i as int));
                assert(ts.take(i + 1).last() == ts[i as int]);
                assert(ts[i as int] == e.topics@[i as int]@);
                assert(out@ =~= topics_prefix + pretty_topic_lines(ts.take(i + 1)));
            }
            i += 1;
        }
        proof {
            assert(e.model().topics.take(n as int) =~= e.model().topics);
            assert(out@ =~= mid_prefix + "\u{2551} Topics:\n"@ + pretty_topic_lines(
                e.model().topics,
            ));
        }
    }
    if e.data.as_str().unicode_len() > 0 {
        out.append("\u{2551} Data: ");
        out.append(e.data.as_str());
        out.append("\n");
    }
    out.append(
        "\u{255A}\u{2550}\u{2550}\u{2550}\u{2550}\u{2550}\u{2550}\u{2550}\u{2550}\u{2550}\u{2550}\u{2550}\u{2550}\u{2550}\u{2550}\u{2550}\u{2550}\u{2550}\u{2550}\u{2550}\u{2550}\u{2550}\u{2550}\u{2550}\u{2550}\u{2550}\u{2550}\u{2550}\u{2550}\u{2550}\u{2550}\u{2550}\u{2550}\u{2550}\u{2550}\u{2550}\u{2550}\u{2550}\u{2550}\u{2550}\u{2550}\u{2550}\u{2550}\u{2550}\u{2550}\u{2550}\u{2550}\u{2550}\u{2550}\u{2550}\u{2550}\u{2550}\u{2550}\u{2550}\u{2550}\u{2550}\u{2550}\u{2550}\u{2550}\u{2550}\u{2550}\n",
    );
    proof {
        assert(out@ =~= pretty_of(e.model()));
    }
    out
}

} // verus!
