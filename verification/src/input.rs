//! Turn input items, prompt attachments, and how a prompt with attachments
//! becomes the input of a turn.
use vstd::prelude::*;
use vstd::utf8::encode_utf8;
use crate::json::{JsonValue, spec_get, spec_as_text, spec_as_u64};
use crate::text::{push_str, push_char, clone_opt_string};

verus! {

#[derive(Clone, Copy, Debug, PartialEq, Eq, Structural)]
pub struct ByteRange {
    pub start: u64,
    pub end: u64,
}

#[derive(Debug, PartialEq, Eq)]
pub struct TextElement {
    pub byte_range: ByteRange,
    pub placeholder: Option<String>,
}

#[derive(Debug, PartialEq, Eq)]
pub enum InputItem {
    Text { text: String },
    TextWithElements { text: String, text_elements: Vec<TextElement> },
    ImageUrl { url: String },
    LocalImage { path: String },
    Skill { name: String, path: String },
}

#[derive(Debug, PartialEq, Eq)]
pub enum PromptAttachment {
    AtPath { path: String, placeholder: Option<String> },
    ImageUrl { url: String },
    LocalImage { path: String },
    Skill { name: String, path: String },
}


impl Clone for PromptAttachment {
    fn clone(&self) -> (r: Self)
        ensures
            r == *self,
    {
        match self {
            PromptAttachment::AtPath { path, placeholder } => PromptAttachment::AtPath {
                path: path.clone(),
                placeholder: clone_opt_string(placeholder),
            },
            PromptAttachment::ImageUrl { url } => PromptAttachment::ImageUrl { url: url.clone() },
            PromptAttachment::LocalImage { path } => PromptAttachment::LocalImage { path: path.clone() },
            PromptAttachment::Skill { name, path } => PromptAttachment::Skill {
                name: name.clone(),
                path: path.clone(),
            },
        }
    }
}

/// Length in bytes of the UTF-8 encoding of `s`.
pub open spec fn byte_len(s: Seq<char>) -> nat {
    encode_utf8(s).len()
}

/// The UTF-8 encoding of two texts joined is their encodings joined.
pub proof fn lemma_encode_concat(a: Seq<char>, b: Seq<char>)
    ensures
        encode_utf8(a + b) == encode_utf8(a) + encode_utf8(b),
    decreases a.len(),
{
    if a.len() == 0 {
        assert(a + b == b);
    } else {
        lemma_encode_concat(a.drop_first(), b);
        assert((a + b).drop_first() == a.drop_first() + b);
        assert((a + b)[0] == a[0]);
    }
}

/// Prompt text with each `@path` attachment appended on a line of its own,
/// and for each such attachment the byte range of `@path` and its placeholder.
pub open spec fn at_path_layout(prompt: Seq<char>, atts: Seq<PromptAttachment>) -> (Seq<char>, Seq<(int, int, Option<String>)>)
    decreases atts.len(),
{
    if atts.len() == 0 {
        (prompt, seq![])
    } else {
        let prev = at_path_layout(prompt, atts.drop_last());
        match atts.last() {
            PromptAttachment::AtPath { path, placeholder } => {
                let head = prev.0 + seq!['\n'];
                let text = head + seq!['@'] + path@;
                (text, prev.1.push((byte_len(head) as int, byte_len(text) as int, placeholder)))
            },
            _ => prev,
        }
    }
}

/// The paths of the `@path` attachments, in order.
pub open spec fn at_paths(atts: Seq<PromptAttachment>) -> Seq<Seq<char>>
    decreases atts.len(),
{
    if atts.len() == 0 {
        seq![]
    } else {
        let prev = at_paths(atts.drop_last());
        match atts.last() {
            PromptAttachment::AtPath { path, .. } => prev.push(path@),
            _ => prev,
        }
    }
}

/// The byte range of each `@path` element covers exactly that mention in
/// the UTF-8 encoding of the turn text: `@` followed by the path.
pub proof fn lemma_elements_cover_mentions(prompt: Seq<char>, atts: Seq<PromptAttachment>, i: int)
    requires
        0 <= i < at_path_layout(prompt, atts).1.len(),
    ensures
        at_paths(atts).len() == at_path_layout(prompt, atts).1.len(),
        0 <= at_path_layout(prompt, atts).1[i].0 <= at_path_layout(prompt, atts).1[i].1 <= byte_len(
            at_path_layout(prompt, atts).0,
        ),
        encode_utf8(at_path_layout(prompt, atts).0).subrange(
            at_path_layout(prompt, atts).1[i].0,
            at_path_layout(prompt, atts).1[i].1,
        ) == encode_utf8(seq!['@'] + at_paths(atts)[i]),
    decreases atts.len(),
{
    let d = atts.drop_last();
    let prev = at_path_layout(prompt, d);
    lemma_paths_count(prompt, d);
    match atts.last() {
        PromptAttachment::AtPath { path, .. } => {
            let head = prev.0 + seq!['\n'];
            let text = head + seq!['@'] + path@;
            let mention = seq!['@'] + path@;
            assert(text == head + mention);
            lemma_encode_concat(head, mention);
            lemma_encode_concat(prev.0, seq!['\n']);
            if i < prev.1.len() {
                lemma_elements_cover_mentions(prompt, d, i);
                assert(encode_utf8(text).subrange(prev.1[i].0, prev.1[i].1) =~= encode_utf8(prev.0).subrange(
                    prev.1[i].0,
                    prev.1[i].1,
                ));
            } else {
                assert(encode_utf8(text).subrange(byte_len(head) as int, byte_len(text) as int) =~= encode_utf8(
                    mention,
                ));
            }
        },
        _ => {
            lemma_elements_cover_mentions(prompt, d, i);
        },
    }
}

proof fn lemma_paths_count(prompt: Seq<char>, atts: Seq<PromptAttachment>)
    ensures
        at_paths(atts).len() == at_path_layout(prompt, atts).1.len(),
    decreases atts.len(),
{
    if atts.len() > 0 {
        lemma_paths_count(prompt, atts.drop_last());
    }
}

/// The input item an attachment other than `@path` stands for.
pub open spec fn attachment_input(a: PromptAttachment) -> Option<InputItem> {
    match a {
        PromptAttachment::AtPath { .. } => None,
        PromptAttachment::ImageUrl { url } => Some(InputItem::ImageUrl { url }),
        PromptAttachment::LocalImage { path } => Some(InputItem::LocalImage { path }),
        PromptAttachment::Skill { name, path } => Some(InputItem::Skill { name, path }),
    }
}

/// The input items of the attachments other than `@path`, in order.
pub open spec fn other_inputs(atts: Seq<PromptAttachment>) -> Seq<InputItem>
    decreases atts.len(),
{
    if atts.len() == 0 {
        seq![]
    } else {
        let prev = other_inputs(atts.drop_last());
        match attachment_input(atts.last()) {
            Some(item) => prev.push(item),
            None => prev,
        }
    }
}

/// `els` are the text elements of the layout `spec_els`.
pub open spec fn elements_match(els: Seq<TextElement>, spec_els: Seq<(int, int, Option<String>)>) -> bool {
    els.len() == spec_els.len() && forall|i: int|
        0 <= i < els.len() ==> (#[trigger] els[i]).byte_range.start == spec_els[i].0
            && els[i].byte_range.end == spec_els[i].1 && els[i].placeholder == spec_els[i].2
}

/// The turn input of a prompt: one text item (with elements when there are
/// `@path` attachments), then the other attachments in order.
pub open spec fn prompt_inputs(prompt: Seq<char>, atts: Seq<PromptAttachment>, r: Seq<InputItem>) -> bool {
    let layout = at_path_layout(prompt, atts);
    &&& r.len() == 1 + other_inputs(atts).len()
    &&& if layout.1.len() == 0 {
        r[0] matches InputItem::Text { text } && text@ == prompt
    } else {
        r[0] matches InputItem::TextWithElements { text, text_elements } && text@ == layout.0
            && elements_match(text_elements@, layout.1)
    }
    &&& r.drop_first() == other_inputs(atts)
}

/// The layout text only grows as attachments are added.
proof fn lemma_layout_grows(prompt: Seq<char>, atts: Seq<PromptAttachment>, i: int)
    requires
        0 <= i <= atts.len(),
    ensures
        byte_len(at_path_layout(prompt, atts.take(i)).0) <= byte_len(at_path_layout(prompt, atts).0),
    decreases atts.len() - i,
{
    if i < atts.len() {
        lemma_layout_grows(prompt, atts, i + 1);
        let t = atts.take(i + 1);
        assert(t.drop_last() == atts.take(i));
        let prev = at_path_layout(prompt, atts.take(i)).0;
        match t.last() {
            PromptAttachment::AtPath { path, .. } => {
                let head = prev + seq!['\n'];
                lemma_encode_concat(prev, seq!['\n']);
                lemma_encode_concat(head, seq!['@']);
                lemma_encode_concat(head + seq!['@'], path@);
            },
            _ => {},
        }
    } else {
        assert(atts.take(i) == atts);
    }
}

pub fn build_prompt_inputs(prompt: &str, attachments: &[PromptAttachment]) -> (r: Vec<InputItem>)
    requires
        byte_len(at_path_layout(prompt@, attachments@).0) <= usize::MAX,
    ensures
        prompt_inputs(prompt@, attachments@, r@),
{
    let mut text = prompt.to_owned();
    let mut elements: Vec<TextElement> = Vec::new();
    let mut others: Vec<InputItem> = Vec::new();
    let mut i: usize = 0;
    while i < attachments.len()
        invariant
            i <= attachments@.len(),
            text@ == at_path_layout(prompt@, attachments@.take(i as int)).0,
            elements_match(elements@, at_path_layout(prompt@, attachments@.take(i as int)).1),
            others@ == other_inputs(attachments@.take(i as int)),
            byte_len(at_path_layout(prompt@, attachments@).0) <= usize::MAX,
        decreases attachments.len() - i,
    {
        let ghost prev_text = text@;
        proof {
            assert(attachments@.take(i + 1).drop_last() == attachments@.take(i as int));
            assert(attachments@.take(i + 1).last() == attachments@[i as int]);
        }
        proof {
            lemma_layout_grows(prompt@, attachments@, i + 1);
        }
        match &attachments[i] {
            PromptAttachment::AtPath { path, placeholder } => {
                push_char(&mut text, '\n');
                let ghost head = text@;
                proof {
                    assert(head == prev_text + seq!['\n']);
                    lemma_encode_concat(head, seq!['@']);
                    lemma_encode_concat(head + seq!['@'], path@);
                }
                let start = text.as_str().len() as u64;
                push_char(&mut text, '@');
                push_str(&mut text, path.as_str());
                let end = text.as_str().len() as u64;
                proof {
                    assert(text@ == head + seq!['@'] + path@);
                    assert(text@ == at_path_layout(prompt@, attachments@.take(i + 1)).0);
                    assert(byte_len(head) <= byte_len(text@));
                    assert(start == byte_len(head));
                    assert(end == byte_len(text@));
                }
                let ghost old_els = elements@;
                elements.push(
                    TextElement {
                        byte_range: ByteRange { start, end },
                        placeholder: clone_opt_string(placeholder),
                    },
                );
                proof {
                    let lay = at_path_layout(prompt@, attachments@.take(i + 1)).1;
                    let prev = at_path_layout(prompt@, attachments@.take(i as int)).1;
                    assert(lay == prev.push((byte_len(head) as int, byte_len(text@) as int, *placeholder)));
                    assert forall|k: int| 0 <= k < elements@.len() implies (#[trigger] elements@[k]).byte_range.start == lay[k].0
                        && elements@[k].byte_range.end == lay[k].1 && elements@[k].placeholder == lay[k].2 by {
                        if k < old_els.len() {
                            assert(elements@[k] == old_els[k]);
                        }
                    }
                }
            },
            PromptAttachment::ImageUrl { url } => {
                others.push(InputItem::ImageUrl { url: url.clone() });
            },
            PromptAttachment::LocalImage { path } => {
                others.push(InputItem::LocalImage { path: path.clone() });
            },
            PromptAttachment::Skill { name, path } => {
                others.push(InputItem::Skill { name: name.clone(), path: path.clone() });
            },
        }
        i += 1;
    }
    proof {
        assert(attachments@.take(attachments@.len() as int) == attachments@);
    }
    let first = if elements.len() == 0 {
        InputItem::Text { text: prompt.to_owned() }
    } else {
        InputItem::TextWithElements { text, text_elements: elements }
    };
    let mut out: Vec<InputItem> = Vec::new();
    out.push(first);
    let ghost rest = others@;
    out.append(&mut others);
    proof {
        assert(out@.drop_first() == rest);
    }
    out
}

/// Wire form of a text element: `byteRange.{start,end}` and `placeholder`.
pub open spec fn element_wire(e: TextElement, v: JsonValue) -> bool {
    &&& spec_get(v, "byteRange"@) matches Some(br)
    &&& spec_as_u64(spec_get(br, "start"@)) == Some(e.byte_range.start)
    &&& spec_as_u64(spec_get(br, "end"@)) == Some(e.byte_range.end)
    &&& match e.placeholder {
        Some(p) => spec_as_text(spec_get(v, "placeholder"@)) == Some(p@),
        None => spec_get(v, "placeholder"@) == Some(JsonValue::Null),
    }
}

/// Wire form of an input item.
pub open spec fn input_wire(item: InputItem, v: JsonValue) -> bool {
    match item {
        InputItem::Text { text } => spec_as_text(spec_get(v, "type"@)) == Some("text"@)
            && spec_as_text(spec_get(v, "text"@)) == Some(text@),
        InputItem::TextWithElements { text, text_elements } => {
            &&& spec_as_text(spec_get(v, "type"@)) == Some("text"@)
            &&& spec_as_text(spec_get(v, "text"@)) == Some(text@)
            &&& spec_get(v, "text_elements"@) matches Some(JsonValue::Array(items))
            &&& items@.len() == text_elements@.len()
            &&& forall|i: int|
                0 <= i < items@.len() ==> element_wire(text_elements@[i], #[trigger] items@[i])
        },
        InputItem::ImageUrl { url } => spec_as_text(spec_get(v, "type"@)) == Some("image"@)
            && spec_as_text(spec_get(v, "url"@)) == Some(url@),
        InputItem::LocalImage { path } => spec_as_text(spec_get(v, "type"@)) == Some("localImage"@)
            && spec_as_text(spec_get(v, "path"@)) == Some(path@),
        InputItem::Skill { name, path } => spec_as_text(spec_get(v, "type"@)) == Some("skill"@)
            && spec_as_text(spec_get(v, "name"@)) == Some(name@) && spec_as_text(
            spec_get(v, "path"@),
        ) == Some(path@),
    }
}

proof fn lemma_wire_keys_distinct()
    ensures
        "type"@ != "text"@,
        "type"@ != "text_elements"@,
        "text"@ != "text_elements"@,
        "type"@ != "url"@,
        "type"@ != "path"@,
        "type"@ != "name"@,
        "name"@ != "path"@,
        "byteRange"@ != "placeholder"@,
        "start"@ != "end"@,
{
    reveal_strlit("type");
    reveal_strlit("text");
    reveal_strlit("text_elements");
    reveal_strlit("url");
    reveal_strlit("path");
    reveal_strlit("name");
    reveal_strlit("byteRange");
    reveal_strlit("placeholder");
    reveal_strlit("start");
    reveal_strlit("end");
    assert("type"@[1] == 'y' && "text"@[1] == 'e' && "text"@.len() == 4 && "text_elements"@.len() == 13);
    assert("url"@.len() == 3 && "path"@[0] == 'p' && "name"@[0] == 'n' && "type"@[0] == 't');
    assert("byteRange"@[0] == 'b' && "placeholder"@[0] == 'p' && "start"@.len() == 5 && "end"@.len() == 3);
}

fn element_to_wire(e: &TextElement) -> (r: JsonValue)
    ensures
        element_wire(*e, r),
{
    proof {
        lemma_wire_keys_distinct();
    }
    let range = JsonValue::object().with("start", JsonValue::uint(e.byte_range.start)).with(
        "end",
        JsonValue::uint(e.byte_range.end),
    );
    let placeholder = match &e.placeholder {
        Some(p) => JsonValue::text(p.as_str()),
        None => JsonValue::Null,
    };
    JsonValue::object().with("byteRange", range).with("placeholder", placeholder)
}

pub fn input_item_to_wire(item: &InputItem) -> (r: JsonValue)
    ensures
        input_wire(*item, r),
{
    proof {
        lemma_wire_keys_distinct();
    }
    match item {
        InputItem::Text { text } => JsonValue::object().with("type", JsonValue::text("text")).with(
            "text",
            JsonValue::text(text.as_str()),
        ),
        InputItem::TextWithElements { text, text_elements } => {
            let mut items: Vec<JsonValue> = Vec::new();
            let mut i: usize = 0;
            while i < text_elements.len()
                invariant
                    i <= text_elements@.len(),
                    items@.len() == i,
                    forall|k: int| 0 <= k < i ==> element_wire(text_elements@[k], #[trigger] items@[k]),
                decreases text_elements.len() - i,
            {
                items.push(element_to_wire(&text_elements[i]));
                i += 1;
            }
            JsonValue::object().with("type", JsonValue::text("text")).with(
                "text",
                JsonValue::text(text.as_str()),
            ).with("text_elements", JsonValue::Array(items))
        },
        InputItem::ImageUrl { url } => JsonValue::object().with("type", JsonValue::text("image")).with(
            "url",
            JsonValue::text(url.as_str()),
        ),
        InputItem::LocalImage { path } => JsonValue::object().with(
            "type",
            JsonValue::text("localImage"),
        ).with("path", JsonValue::text(path.as_str())),
        InputItem::Skill { name, path } => JsonValue::object().with("type", JsonValue::text("skill")).with(
            "name",
            JsonValue::text(name.as_str()),
        ).with("path", JsonValue::text(path.as_str())),
    }
}

} // verus!
