//! Structured argument values and their Markdown rendering.
//!
//! A value renders as a nested bullet list. Strings that are long or span
//! several lines become fenced blocks, short ones inline code; a string that
//! stands alone is withheld when it is oversized, unless full content was
//! asked for.

use crate::text::{
    char_count, contains, contains_pattern, decimal, decimal_string, push_decimal, push_spaces,
    replace_char, replaced, signed_decimal, signed_decimal_string, spaces, trim, trimmed,
};
use vstd::prelude::*;

verus! {

/// Strings with more characters than this are withheld from inline output.
pub const MAX_STRING_LENGTH_MD_EXPORT: usize = 4096;

/// Strings with more characters than this are set in a fenced block.
pub const MAX_INLINE_STRING_LENGTH: usize = 80;

/// A number: an integer, or the decimal text of one that is not.
#[derive(Debug, PartialEq, Eq)]
pub enum Number {
    Unsigned(u64),
    Signed(i64),
    Decimal(String),
}

/// What a `Number` stands for.
pub enum NumberView {
    Integer(int),
    Decimal(Seq<char>),
}

impl View for Number {
    type V = NumberView;

    open spec fn view(&self) -> NumberView {
        match self {
            Number::Unsigned(n) => NumberView::Integer(*n as int),
            Number::Signed(n) => NumberView::Integer(*n as int),
            Number::Decimal(text) => NumberView::Decimal(text@),
        }
    }
}

/// A structured value. An object holds its entries in the order in which
/// they are rendered.
#[derive(Debug, PartialEq, Eq)]
pub enum Value {
    Null,
    Bool(bool),
    Number(Number),
    String(String),
    Array(Vec<Value>),
    Object(Vec<Entry>),
}

/// One entry of an object: a key and the value under it.
#[derive(Debug, PartialEq, Eq)]
pub struct Entry {
    pub key: String,
    pub value: Value,
}

/// What a `Value` stands for.
pub enum ValueView {
    Null,
    Bool(bool),
    Number(NumberView),
    String(Seq<char>),
    Array(Seq<ValueView>),
    Object(Seq<EntryView>),
}

/// What an `Entry` stands for.
pub struct EntryView {
    pub key: Seq<char>,
    pub value: ValueView,
}

impl View for Entry {
    type V = EntryView;

    open spec fn view(&self) -> EntryView
        decreases self,
    {
        EntryView { key: self.key@, value: self.value@ }
    }
}

impl View for Value {
    type V = ValueView;

    open spec fn view(&self) -> ValueView
        decreases self,
    {
        match self {
            Value::Null => ValueView::Null,
            Value::Bool(b) => ValueView::Bool(*b),
            Value::Number(n) => ValueView::Number(n@),
            Value::String(s) => ValueView::String(s@),
            Value::Array(items) => ValueView::Array(
                Seq::new(
                    items@.len(),
                    |i: int|
                        if 0 <= i < items@.len() {
                            items@[i]@
                        } else {
                            ValueView::Null
                        },
                ),
            ),
            Value::Object(entries) => ValueView::Object(
                Seq::new(
                    entries@.len(),
                    |i: int|
                        if 0 <= i < entries@.len() {
                            entries@[i]@
                        } else {
                            EntryView { key: Seq::empty(), value: ValueView::Null }
                        },
                ),
            ),
        }
    }
}

// ---------------------------------------------------------------------------
// The rendering, stated
// ---------------------------------------------------------------------------
/// The text of a number.
pub open spec fn number_text(n: NumberView) -> Seq<char> {
    match n {
        NumberView::Integer(i) => signed_decimal(i),
        NumberView::Decimal(text) => text,
    }
}

/// A string as it stands inside an inline code span: backticks escaped, and
/// each line break written as a backslash and the letter n.
pub open spec fn escape_inline(s: Seq<char>) -> Seq<char> {
    replace_char(replace_char(s, '`', "\\`"@), '\n', "\\n"@)
}

/// The marker that stands for a withheld string of `n` characters.
pub open spec fn redaction_marker(n: nat) -> Seq<char> {
    "`[REDACTED: "@ + decimal(n) + " chars]`"@
}

/// The inline text of a value that is neither an object nor an array.
pub open spec fn simple_text(v: ValueView, full: bool) -> Seq<char> {
    match v {
        ValueView::String(s) => if !full && s.len() > MAX_STRING_LENGTH_MD_EXPORT {
            redaction_marker(s.len())
        } else {
            "`"@ + escape_inline(s) + "`"@
        },
        ValueView::Number(n) => number_text(n),
        ValueView::Bool(b) => if b {
            "*true*"@
        } else {
            "*false*"@
        },
        ValueView::Null => "_null_"@,
        _ => "`[Complex Value]`"@,
    }
}

/// A string that is set in a fenced block: one with a line break, or a long
/// one.
pub open spec fn is_block_string(s: Seq<char>) -> bool {
    contains_pattern(s, "\n"@) || s.len() > MAX_INLINE_STRING_LENGTH
}

/// A string member as a fenced block.
pub open spec fn block_text(s: Seq<char>, indent: Seq<char>, fence: Seq<char>) -> Seq<char> {
    "\n"@ + indent + fence + "```\n"@ + indent + trim(s) + "\n"@ + indent + fence + "```\n"@
}

/// A short string member as inline code.
pub open spec fn inline_text(s: Seq<char>) -> Seq<char> {
    "`"@ + replace_char(s, '`', "\\`"@) + "`\n"@
}

/// The text that follows the bullet of an object entry or array element.
pub open spec fn member_text(
    v: ValueView,
    indent: Seq<char>,
    fence: Seq<char>,
    full: bool,
) -> Seq<char>
    decreases v, 1nat,
{
    match v {
        ValueView::String(s) => if is_block_string(s) {
            block_text(s, indent, fence)
        } else {
            inline_text(s)
        },
        ValueView::Object(_) | ValueView::Array(_) => "\n"@ + value_text(
            v,
            indent + "    "@,
            full,
        ),
        _ => simple_text(v, full) + "\n"@,
    }
}

/// The bullet of one object entry.
pub open spec fn entry_text(
    key: Seq<char>,
    v: ValueView,
    indent: Seq<char>,
    full: bool,
) -> Seq<char>
    decreases v, 2nat,
{
    indent + "*   **"@ + key + "**: "@ + member_text(v, indent, "    "@, full)
}

/// The bullet of one array element.
pub open spec fn item_text(v: ValueView, indent: Seq<char>, full: bool) -> Seq<char>
    decreases v, 2nat,
{
    indent + "*   - "@ + member_text(v, indent, "      "@, full)
}

/// The bullets of the entries of an object, in order.
pub open spec fn entries_text(entries: Seq<EntryView>, indent: Seq<char>, full: bool) -> Seq<
    char,
>
    decreases entries, 0nat,
{
    if entries.len() == 0 {
        Seq::empty()
    } else {
        entries_text(entries.drop_last(), indent, full) + entry_text(
            entries.last().key,
            entries.last().value,
            indent,
            full,
        )
    }
}

/// The bullets of the elements of an array, in order.
pub open spec fn items_text(items: Seq<ValueView>, indent: Seq<char>, full: bool) -> Seq<char>
    decreases items, 0nat,
{
    if items.len() == 0 {
        Seq::empty()
    } else {
        items_text(items.drop_last(), indent, full) + item_text(items.last(), indent, full)
    }
}

/// The text of a value whose lines begin with `indent`.
pub open spec fn value_text(v: ValueView, indent: Seq<char>, full: bool) -> Seq<char>
    decreases v, 0nat,
{
    match v {
        ValueView::Object(entries) => if entries.len() == 0 {
            indent + "*empty object*\n"@
        } else {
            entries_text(entries, indent, full)
        },
        ValueView::Array(items) => if items.len() == 0 {
            indent + "*   *empty list*\n"@
        } else {
            items_text(items, indent, full)
        },
        _ => indent + simple_text(v, full) + "\n"@,
    }
}

/// The text of a value at a nesting depth: two spaces of indentation for
/// each level.
pub open spec fn value_markdown(v: ValueView, depth: nat, full: bool) -> Seq<char> {
    value_text(v, spaces(2 * depth), full)
}

// ---------------------------------------------------------------------------
// The rendering, computed
// ---------------------------------------------------------------------------
/// The text of a number.
pub fn number_to_string(n: &Number) -> (r: String)
    ensures
        r@ == number_text(n@),
{
    match n {
        Number::Unsigned(u) => decimal_string(*u),
        Number::Signed(i) => signed_decimal_string(*i),
        Number::Decimal(text) => text.clone(),
    }
}

/// Renders a value that is neither an object nor an array as inline text.
/// An oversized string is replaced by a marker that gives its length, unless
/// `export_full_strings` is set.
pub fn value_to_simple_markdown_string(value: &Value, export_full_strings: bool) -> (r: String)
    ensures
        r@ == simple_text(value@, export_full_strings),
{
    match value {
        Value::String(s) => {
            let n = char_count(s.as_str());
            if !export_full_strings && n > MAX_STRING_LENGTH_MD_EXPORT {
                let mut r = String::from_str("`[REDACTED: ");
                push_decimal(&mut r, n as u64);
                r.append(" chars]`");
                r
            } else {
                let no_ticks = replaced(s.as_str(), '`', "\\`");
                let escaped = replaced(no_ticks.as_str(), '\n', "\\n");
                let mut r = String::from_str("`");
                r.append(escaped.as_str());
                r.append("`");
                r
            }
        },
        Value::Number(n) => number_to_string(n),
        Value::Bool(b) => if *b {
            String::from_str("*true*")
        } else {
            String::from_str("*false*")
        },
        Value::Null => String::from_str("_null_"),
        _ => String::from_str("`[Complex Value]`"),
    }
}

/// Renders what follows the bullet of an object entry or array element.
fn member_to_markdown(value: &Value, indent: &str, fence: &str, full: bool) -> (r: String)
    ensures
        r@ == member_text(value@, indent@, fence@, full),
    decreases value, 1nat,
{
    match value {
        Value::String(s) => {
            if contains(s.as_str(), "\n") || char_count(s.as_str()) > MAX_INLINE_STRING_LENGTH {
                let body = trimmed(s.as_str());
                let mut r = String::from_str("\n");
                r.append(indent);
                r.append(fence);
                r.append("```\n");
                r.append(indent);
                r.append(body.as_str());
                r.append("\n");
                r.append(indent);
                r.append(fence);
                r.append("```\n");
                r
            } else {
                let no_ticks = replaced(s.as_str(), '`', "\\`");
                let mut r = String::from_str("`");
                r.append(no_ticks.as_str());
                r.append("`\n");
                r
            }
        },
        Value::Object(_) | Value::Array(_) => {
            let mut deeper = String::from_str(indent);
            deeper.append("    ");
            let nested = value_to_markdown_indented(value, deeper.as_str(), full);
            let mut r = String::from_str("\n");
            r.append(nested.as_str());
            r
        },
        _ => {
            let mut r = value_to_simple_markdown_string(value, full);
            r.append("\n");
            r
        },
    }
}

/// Renders the bullet of one object entry.
pub fn entry_to_markdown(entry: &Entry, indent: &str, full: bool) -> (r: String)
    ensures
        r@ == entry_text(entry@.key, entry@.value, indent@, full),
    decreases entry, 0nat,
{
    let member = member_to_markdown(&entry.value, indent, "    ", full);
    let mut r = String::from_str(indent);
    r.append("*   **");
    r.append(entry.key.as_str());
    r.append("**: ");
    r.append(member.as_str());
    r
}

/// Renders the bullet of one array element.
pub fn item_to_markdown(item: &Value, indent: &str, full: bool) -> (r: String)
    ensures
        r@ == item_text(item@, indent@, full),
    decreases item, 2nat,
{
    let member = member_to_markdown(item, indent, "      ", full);
    let mut r = String::from_str(indent);
    r.append("*   - ");
    r.append(member.as_str());
    r
}

/// Renders a value as Markdown whose lines begin with `indent`.
#[verifier::loop_isolation(false)]
pub fn value_to_markdown_indented(value: &Value, indent: &str, full: bool) -> (r: String)
    ensures
        r@ == value_text(value@, indent@, full),
    decreases value, 0nat,
{
    match value {
        Value::Object(entries) => {
            if entries.len() == 0 {
                let mut r = String::from_str(indent);
                r.append("*empty object*\n");
                return r;
            }
            let ghost views = value@->Object_0;
            let mut r = String::new();
            let mut i: usize = 0;
            while i < entries.len()
                invariant
                    i <= entries.len(),
                    r@ == entries_text(views.take(i as int), indent@, full),
                decreases entries.len() - i,
            {
                let bullet = entry_to_markdown(&entries[i], indent, full);
                r.append(bullet.as_str());
                assert(views.take(i + 1).drop_last() =~= views.take(i as int));
                i += 1;
            }
            assert(views.take(entries.len() as int) =~= views);
            r
        },
        Value::Array(items) => {
            if items.len() == 0 {
                let mut r = String::from_str(indent);
                r.append("*   *empty list*\n");
                return r;
            }
            let ghost views = value@->Array_0;
            let mut r = String::new();
            let mut i: usize = 0;
            while i < items.len()
                invariant
                    i <= items.len(),
                    r@ == items_text(views.take(i as int), indent@, full),
                decreases items.len() - i,
            {
                let bullet = item_to_markdown(&items[i], indent, full);
                r.append(bullet.as_str());
                assert(views.take(i + 1).drop_last() =~= views.take(i as int));
                i += 1;
            }
            assert(views.take(items.len() as int) =~= views);
            r
        },
        _ => {
            let simple = value_to_simple_markdown_string(value, full);
            let mut r = String::from_str(indent);
            r.append(simple.as_str());
            r.append("\n");
            r
        },
    }
}

/// Renders a value as Markdown at a nesting depth: objects and arrays as
/// bullet lists, anything else as one line.
pub fn value_to_markdown(value: &Value, depth: usize, export_full_strings: bool) -> (r: String)
    ensures
        r@ == value_markdown(value@, depth as nat, export_full_strings),
{
    let mut indent = String::new();
    push_spaces(&mut indent, depth);
    push_spaces(&mut indent, depth);
    assert(indent@ =~= spaces(2 * (depth as nat)));
    value_to_markdown_indented(value, indent.as_str(), export_full_strings)
}

} // verus!
