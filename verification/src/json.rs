//! The JSON wire form of an outbound message.
//!
//! The downstream endpoint expects one JSON object per message: a `msg_type`
//! discriminator and a `card` object holding the header and the ordered
//! element array. The whole wire form is stated character-for-character by
//! [`message_json`] over the message model, and [`message_to_json`] is proved
//! to produce exactly that sequence. String values are escaped as JSON asks:
//! quote, backslash and every control character.

use vstd::prelude::*;

use crate::card::{CardElement, CardField, ElemModel, LarkMessage, MessageModel};
use crate::sig::hex_digit;

verus! {

/// Whether a character must be escaped inside a JSON string.
pub open spec fn needs_escape(c: char) -> bool {
    c == '"' || c == '\\' || (c as u32) < 32
}

/// The escape of one character inside a JSON string: the two-character
/// escapes JSON names, `\u00..` for the remaining control characters, and
/// the character itself otherwise.
pub open spec fn esc_char(c: char) -> Seq<char> {
    if c == '"' {
        "\\\""@
    } else if c == '\\' {
        "\\\\"@
    } else if c == '\n' {
        "\\n"@
    } else if c == '\r' {
        "\\r"@
    } else if c == '\t' {
        "\\t"@
    } else if (c as u32) < 32 {
        "\\u00"@ + seq![
            hex_digit(((c as u32) / 16) as u8),
            hex_digit(((c as u32) % 16) as u8),
        ]
    } else {
        seq![c]
    }
}

/// The JSON escape of a whole character sequence.
pub open spec fn json_escape(s: Seq<char>) -> Seq<char>
    decreases s.len(),
{
    if s.len() == 0 {
        Seq::<char>::empty()
    } else {
        json_escape(s.drop_last()) + esc_char(s.last())
    }
}

/// A JSON string literal: the escaped sequence between double quotes.
pub open spec fn json_string(s: Seq<char>) -> Seq<char> {
    "\""@ + json_escape(s) + "\""@
}

proof fn lemma_json_escape_take_succ(s: Seq<char>, i: int)
    requires
        0 <= i < s.len(),
    ensures
        json_escape(s.take(i + 1)) == json_escape(s.take(i)) + esc_char(s[i]),
{
    let t = s.take(i + 1);
    assert(t.drop_last() =~= s.take(i));
    assert(t.last() == s[i]);
}

/// Appends the lowercase hex digit of a nibble.
fn append_hex_digit(out: &mut String, nibble: u8)
    requires
        nibble < 16,
    ensures
        final(out)@ == old(out)@ + seq![hex_digit(nibble)],
{
    let digits = "0123456789abcdef";
    proof {
        reveal_strlit("0123456789abcdef");
    }
    let d = digits.substring_char(nibble as usize, nibble as usize + 1);
    out.append(d);
    proof {
        assert(d@ =~= seq![hex_digit(nibble)]);
    }
}

/// The JSON escape of a string, built character by character.
pub fn json_escape_str(s: &str) -> (r: String)
    ensures
        r@ == json_escape(s@),
{
    let n = s.unicode_len();
    let mut out = String::new();
    let mut i: usize = 0;
    while i < n
        invariant
            i <= n,
            n == s@.len(),
            out@ == json_escape(s@.take(i as int)),
        decreases n - i,
    {
        let c = s.get_char(i);
        if c == '"' {
            out.append("\\\"");
        } else if c == '\\' {
            out.append("\\\\");
        } else if c == '\n' {
            out.append("\\n");
        } else if c == '\r' {
            out.append("\\r");
        } else if c == '\t' {
            out.append("\\t");
        } else if (c as u32) < 32 {
            let code: u32 = c as u32;
            out.append("\\u00");
            append_hex_digit(&mut out, (code / 16) as u8);
            append_hex_digit(&mut out, (code % 16) as u8);
            proof {
                assert(out@ =~= json_escape(s@.take(i as int)) + esc_char(c));
            }
        } else {
            let piece = s.substring_char(i, i + 1);
            out.append(piece);
            proof {
                assert(piece@ =~= seq![c]);
            }
        }
        proof {
            lemma_json_escape_take_succ(s@, i as int);
        }
        i += 1;
    }
    proof {
        assert(s@.take(n as int) =~= s@);
    }
    out
}

/// Appends a JSON string literal holding `s`.
fn append_json_string(out: &mut String, s: &str)
    ensures
        final(out)@ == old(out)@ + json_string(s@),
{
    out.append("\"");
    let escaped = json_escape_str(s);
    out.append(escaped.as_str());
    out.append("\"");
    proof {
        assert(out@ =~= old(out)@ + json_string(s@));
    }
}

/// The wire form of the bold title block.
pub open spec fn title_block_json(content: Seq<char>) -> Seq<char> {
    "{\"tag\":\"div\",\"text\":{\"tag\":\"lark_md\",\"content\":"@ + json_string(content) + "}}"@
}

/// The wire form of one short field.
pub open spec fn field_json(content: Seq<char>) -> Seq<char> {
    "{\"is_short\":true,\"text\":{\"tag\":\"lark_md\",\"content\":"@ + json_string(content) + "}}"@
}

/// The comma-joined wire forms of the fields, in order.
pub open spec fn fields_array_json(fields: Seq<Seq<char>>) -> Seq<char>
    decreases fields.len(),
{
    if fields.len() == 0 {
        Seq::<char>::empty()
    } else if fields.len() == 1 {
        field_json(fields[0])
    } else {
        fields_array_json(fields.drop_last()) + ","@ + field_json(fields.last())
    }
}

/// The wire form of the fields block.
pub open spec fn fields_block_json(fields: Seq<Seq<char>>) -> Seq<char> {
    "{\"tag\":\"div\",\"fields\":["@ + fields_array_json(fields) + "]}"@
}

/// The wire form of the action block: one primary button linking to the
/// source record.
pub open spec fn action_block_json(url: Seq<char>) -> Seq<char> {
    "{\"tag\":\"action\",\"actions\":[{\"tag\":\"button\",\"text\":{\"tag\":\"plain_text\",\"content\":\"View in Linear\"},\"type\":\"primary\",\"url\":"@
        + json_string(url) + "}]}"@
}

/// The wire form of one element.
pub open spec fn element_json(e: ElemModel) -> Seq<char> {
    match e {
        ElemModel::Title(content) => title_block_json(content),
        ElemModel::Fields(fields) => fields_block_json(fields),
        ElemModel::Action(url) => action_block_json(url),
    }
}

/// The comma-joined wire forms of the elements, in order.
pub open spec fn elements_array_json(elements: Seq<ElemModel>) -> Seq<char>
    decreases elements.len(),
{
    if elements.len() == 0 {
        Seq::<char>::empty()
    } else if elements.len() == 1 {
        element_json(elements[0])
    } else {
        elements_array_json(elements.drop_last()) + ","@ + element_json(elements.last())
    }
}

/// The wire form of a whole message.
pub open spec fn message_json(m: MessageModel) -> Seq<char> {
    "{\"msg_type\":\"interactive\",\"card\":{\"header\":{\"template\":"@ + json_string(m.template)
        + ",\"title\":{\"content\":"@ + json_string(m.title) + ",\"tag\":\"plain_text\"}},\"elements\":["@
        + elements_array_json(m.elements) + "]}}"@
}

proof fn lemma_fields_array_take_succ(fields: Seq<Seq<char>>, i: int)
    requires
        0 <= i < fields.len(),
    ensures
        i == 0 ==> fields_array_json(fields.take(1)) == field_json(fields[0]),
        i > 0 ==> fields_array_json(fields.take(i + 1)) == fields_array_json(fields.take(i))
            + ","@ + field_json(fields[i]),
{
    let t = fields.take(i + 1);
    assert(t.drop_last() =~= fields.take(i));
    assert(t.last() == fields[i]);
}

proof fn lemma_elements_array_take_succ(elements: Seq<ElemModel>, i: int)
    requires
        0 <= i < elements.len(),
    ensures
        i == 0 ==> elements_array_json(elements.take(1)) == element_json(elements[0]),
        i > 0 ==> elements_array_json(elements.take(i + 1)) == elements_array_json(
            elements.take(i),
        ) + ","@ + element_json(elements[i]),
{
    let t = elements.take(i + 1);
    assert(t.drop_last() =~= elements.take(i));
    assert(t.last() == elements[i]);
}

/// Appends the wire form of one short field.
fn append_field(out: &mut String, content: &str)
    ensures
        final(out)@ == old(out)@ + field_json(content@),
{
    out.append("{\"is_short\":true,\"text\":{\"tag\":\"lark_md\",\"content\":");
    append_json_string(out, content);
    out.append("}}");
    proof {
        assert(out@ =~= old(out)@ + field_json(content@));
    }
}

/// The wire form of one card element.
pub fn element_to_json(element: &CardElement) -> (r: String)
    ensures
        r@ == element_json(element@),
{
    match element {
        CardElement::TitleBlock { content } => {
            let mut out = String::from_str(
                "{\"tag\":\"div\",\"text\":{\"tag\":\"lark_md\",\"content\":",
            );
            append_json_string(&mut out, content.as_str());
            out.append("}}");
            proof {
                assert(out@ =~= element_json(element@));
            }
            out
        }
        CardElement::FieldsBlock { fields } => {
            let ghost fs = fields@.map_values(|f: CardField| f.content@);
            let mut out = String::from_str("{\"tag\":\"div\",\"fields\":[");
            proof {
                assert(out@ =~= "{\"tag\":\"div\",\"fields\":["@ + fields_array_json(
                    fs.take(0),
                ));
            }
            let n = fields.len();
            let mut i: usize = 0;
            while i < n
                invariant
                    i <= n,
                    n == fields.len(),
                    fs == fields@.map_values(|f: CardField| f.content@),
                    out@ == "{\"tag\":\"div\",\"fields\":["@ + fields_array_json(
                        fs.take(i as int),
                    ),
                decreases n - i,
            {
                if i > 0 {
                    out.append(",");
                }
                append_field(&mut out, fields[i].content.as_str());
                proof {
                    assert(fs[i as int] == fields@[i as int].content@);
                    lemma_fields_array_take_succ(fs, i as int);
                    assert(out@ =~= "{\"tag\":\"div\",\"fields\":["@ + fields_array_json(
                        fs.take(i as int + 1),
                    ));
                }
                i += 1;
            }
            out.append("]}");
            proof {
                assert(fs.take(n as int) =~= fs);
                assert(element@ == ElemModel::Fields(fs));
                assert(out@ =~= element_json(element@));
            }
            out
        }
        CardElement::ActionBlock { url } => {
            let mut out = String::from_str(
                "{\"tag\":\"action\",\"actions\":[{\"tag\":\"button\",\"text\":{\"tag\":\"plain_text\",\"content\":\"View in Linear\"},\"type\":\"primary\",\"url\":",
            );
            append_json_string(&mut out, url.as_str());
            out.append("}]}");
            proof {
                assert(out@ =~= element_json(element@));
            }
            out
        }
    }
}

/// The full wire form of an outbound message, exactly as [`message_json`]
/// states it.
pub fn message_to_json(message: &LarkMessage) -> (r: String)
    ensures
        r@ == message_json(message@),
{
    let ghost es = message.card.elements@.map_values(|e: CardElement| e@);
    let mut out = String::from_str(
        "{\"msg_type\":\"interactive\",\"card\":{\"header\":{\"template\":",
    );
    append_json_string(&mut out, message.card.header.template.as_str());
    out.append(",\"title\":{\"content\":");
    append_json_string(&mut out, message.card.header.title.as_str());
    out.append(",\"tag\":\"plain_text\"}},\"elements\":[");
    let ghost head = out@;
    proof {
        assert(out@ =~= head + elements_array_json(es.take(0)));
    }
    let n = message.card.elements.len();
    let mut i: usize = 0;
    while i < n
        invariant
            i <= n,
            n == message.card.elements.len(),
            es == message.card.elements@.map_values(|e: CardElement| e@),
            head == "{\"msg_type\":\"interactive\",\"card\":{\"header\":{\"template\":"@
                + json_string(message.card.header.template@) + ",\"title\":{\"content\":"@
                + json_string(message.card.header.title@) + ",\"tag\":\"plain_text\"}},\"elements\":["@,
            out@ == head + elements_array_json(es.take(i as int)),
        decreases n - i,
    {
        if i > 0 {
            out.append(",");
        }
        let piece = element_to_json(&message.card.elements[i]);
        out.append(piece.as_str());
        proof {
            assert(es[i as int] == message.card.elements@[i as int]@);
            lemma_elements_array_take_succ(es, i as int);
            assert(out@ =~= head + elements_array_json(es.take(i as int + 1)));
        }
        i += 1;
    }
    out.append("]}}");
    proof {
        assert(es.take(n as int) =~= es);
        assert(out@ =~= message_json(message@));
    }
    out
}

} // verus!
