//! Rendering of errors: as text for people, and as a terminated byte string
//! for the engine's own error constructors.

use crate::decimal::{decimal, is_digit, lemma_decimal_digits, push_decimal};
use crate::error::{message_view, Error, ErrorView};
use crate::strings::{
    is_control, lacks, lemma_encode_utf8_nul_free, lemma_lacks_concat, lemma_printable_lacks,
    nul_free, nul_free_bytes, printable, single_line,
};
use vstd::prelude::*;
use vstd::string::*;
use vstd::utf8::encode_utf8;

verus! {

/// What a message adds to the text of an error: a colon, a space and the
/// message, or nothing where there is no message or an empty one.
pub open spec fn message_suffix(message: Option<Seq<char>>) -> Seq<char> {
    match message {
        Some(m) => if m.len() > 0 {
            ": "@ + m
        } else {
            Seq::empty()
        },
        None => Seq::empty(),
    }
}

/// True when the message, if there is one, lacks the character `c`.
pub open spec fn message_lacks(message: Option<Seq<char>>, c: char) -> bool {
    match message {
        Some(m) => lacks(m, c),
        None => true,
    }
}

/// How an upper bound on the number of arguments is written: in decimal, or
/// not at all where there is none.
pub open spec fn most_text(most: Option<nat>) -> Seq<char> {
    match most {
        Some(n) => decimal(n),
        None => Seq::empty(),
    }
}

impl ErrorView {
    /// The description of the error: a fixed sentence for its kind, with
    /// the texts and numbers that the error carries set into it.
    pub open spec fn text(self) -> Seq<char> {
        match self {
            ErrorView::Allocation => "Allocation failed while creating object"@,
            ErrorView::DuplicateExports => {
                "Tried to export two values with the same name from one module"@
            },
            ErrorView::InvalidString(cause) => {
                "String contained internal null bytes: "@ + cause.description
            },
            ErrorView::InvalidCStr(description) => {
                "CStr didn't end in a null byte: "@ + description
            },
            ErrorView::Utf8(cause) => "Conversion from string failed: "@ + cause.description,
            ErrorView::Unknown => "quickjs library created a unknown error"@,
            ErrorView::Exception => "quickjs generated an exception"@,
            ErrorView::FromJs { from, to, message } => {
                "Error converting from js '"@ + from + "' into type '"@ + to + "'"@
                    + message_suffix(message)
            },
            ErrorView::IntoJs { from, to, message } => {
                "Error converting from '"@ + from + "' into js '"@ + to + "'"@ + message_suffix(
                    message,
                )
            },
            ErrorView::NumArgs { least, most, given } => {
                "Error calling function with "@ + decimal(given) + " argument(s) while "@
                    + decimal(least) + ".."@ + most_text(most) + " expected"@
            },
            ErrorView::Resolving { base, name, message } => {
                "Error resolving module '"@ + name + "' from '"@ + base + "'"@ + message_suffix(
                    message,
                )
            },
            ErrorView::Loading { name, message } => {
                "Error loading module '"@ + name + "'"@ + message_suffix(message)
            },
            ErrorView::Io(description) => "IO Error: "@ + description,
            ErrorView::UnrelatedRuntime => "Restoring Persistent in an unrelated runtime"@,
        }
    }

    /// The description as the engine's error constructors take it: its UTF-8
    /// bytes, then one terminator byte.
    pub open spec fn c_string(self) -> Seq<u8> {
        encode_utf8(self.text()).push(0u8)
    }

    /// True when none of the texts that the error carries holds the
    /// character `c`: not a description, a label, a name or a message.
    pub open spec fn lacks(self, c: char) -> bool {
        match self {
            ErrorView::InvalidString(cause) => lacks(cause.description, c),
            ErrorView::InvalidCStr(description) => lacks(description, c),
            ErrorView::Utf8(cause) => lacks(cause.description, c),
            ErrorView::Io(description) => lacks(description, c),
            ErrorView::FromJs { from, to, message } => {
                lacks(from, c) && lacks(to, c) && message_lacks(message, c)
            },
            ErrorView::IntoJs { from, to, message } => {
                lacks(from, c) && lacks(to, c) && message_lacks(message, c)
            },
            ErrorView::Resolving { base, name, message } => {
                lacks(base, c) && lacks(name, c) && message_lacks(message, c)
            },
            ErrorView::Loading { name, message } => lacks(name, c) && message_lacks(message, c),
            _ => true,
        }
    }

    /// True when none of the texts that the error carries holds a terminator
    /// character.
    pub open spec fn nul_free(self) -> bool {
        self.lacks('\0')
    }

    /// True when none of the texts that the error carries holds a line
    /// break.
    pub open spec fn single_line(self) -> bool {
        self.lacks('\n') && self.lacks('\r')
    }

    /// The same error with another message, where it is of a kind that
    /// carries one; else the error itself.
    pub open spec fn with_message(self, message: Option<Seq<char>>) -> ErrorView {
        match self {
            ErrorView::FromJs { from, to, .. } => ErrorView::FromJs { from, to, message },
            ErrorView::IntoJs { from, to, .. } => ErrorView::IntoJs { from, to, message },
            ErrorView::Resolving { base, name, .. } => ErrorView::Resolving {
                base,
                name,
                message,
            },
            ErrorView::Loading { name, .. } => ErrorView::Loading { name, message },
            _ => self,
        }
    }
}

/// True when `bytes` ends in a terminator byte and holds no other.
pub open spec fn terminated_once(bytes: Seq<u8>) -> bool {
    &&& bytes.len() > 0
    &&& bytes.last() == 0u8
    &&& nul_free_bytes(bytes.drop_last())
}

/// Appends to `out` what `message` adds to a description.
fn push_message(out: &mut String, message: &Option<String>)
    ensures
        final(out)@ == old(out)@ + message_suffix(message_view(*message)),
{
    if let Some(message) = message {
        if !message.as_str().is_empty() {
            out.append(": ");
            out.append(message.as_str());
            assert(out@ =~= old(out)@ + (": "@ + message@));
            return ;
        }
    }
    assert(out@ =~= old(out)@ + Seq::<char>::empty());
}

impl Error {
    /// Writes the description of the error at the end of `f`.
    pub fn fmt(&self, f: &mut String)
        ensures
            final(f)@ == old(f)@ + self@.text(),
    {
        match self {
            Error::Allocation => f.append("Allocation failed while creating object"),
            Error::DuplicateExports => {
                f.append("Tried to export two values with the same name from one module")
            },
            Error::InvalidString(error) => {
                f.append("String contained internal null bytes: ");
                f.append(error.description.as_str());
            },
            Error::InvalidCStr(error) => {
                f.append("CStr didn't end in a null byte: ");
                f.append(error.description.as_str());
            },
            Error::Utf8(error) => {
                f.append("Conversion from string failed: ");
                f.append(error.description.as_str());
            },
            Error::Unknown => f.append("quickjs library created a unknown error"),
            Error::Exception => f.append("quickjs generated an exception"),
            Error::FromJs { from, to, message } => {
                f.append("Error converting from js '");
                f.append(*from);
                f.append("' into type '");
                f.append(*to);
                f.append("'");
                push_message(f, message);
            },
            Error::IntoJs { from, to, message } => {
                f.append("Error converting from '");
                f.append(*from);
                f.append("' into js '");
                f.append(*to);
                f.append("'");
                push_message(f, message);
            },
            Error::NumArgs { expected, given } => {
                f.append("Error calling function with ");
                push_decimal(f, *given);
                f.append(" argument(s) while ");
                push_decimal(f, expected.start);
                f.append("..");
                if expected.end < usize::MAX {
                    push_decimal(f, expected.end);
                }
                f.append(" expected");
            },
            Error::Resolving { base, name, message } => {
                f.append("Error resolving module '");
                f.append(name.as_str());
                f.append("' from '");
                f.append(base.as_str());
                f.append("'");
                push_message(f, message);
            },
            Error::Loading { name, message } => {
                f.append("Error loading module '");
                f.append(name.as_str());
                f.append("'");
                push_message(f, message);
            },
            Error::Io(error) => {
                f.append("IO Error: ");
                f.append(error.description.as_str());
            },
            Error::UnrelatedRuntime => f.append("Restoring Persistent in an unrelated runtime"),
        }
        assert(f@ =~= old(f)@ + self@.text());
    }

    /// The description of the error.
    pub fn to_string(&self) -> (text: String)
        ensures
            text@ == self@.text(),
    {
        let mut text = String::new();
        self.fmt(&mut text);
        assert(text@ =~= self@.text());
        text
    }

    /// The description as a terminated byte string: the bytes of the text,
    /// then the terminator, which is appended once and never searched for.
    pub fn to_cstring(&self) -> (message: Vec<u8>)
        ensures
            message@ == self@.c_string(),
            terminated_once(message@) == self@.nul_free(),
    {
        proof {
            lemma_c_string_terminated_once(self@);
        }
        let text = self.to_string();
        let mut message = text.as_str().as_bytes_vec();
        message.push(0u8);
        message
    }
}

/// The fixed parts of the descriptions that open with the name of what
/// failed hold no control character.
proof fn lemma_plain_parts_printable()
    ensures
        printable("Allocation failed while creating object"@),
        printable("Tried to export two values with the same name from one module"@),
        printable("String contained internal null bytes: "@),
        printable("CStr didn't end in a null byte: "@),
        printable("Conversion from string failed: "@),
        printable("quickjs library created a unknown error"@),
        printable("quickjs generated an exception"@),
        printable("IO Error: "@),
        printable("Restoring Persistent in an unrelated runtime"@),
{
    reveal_strlit("Allocation failed while creating object");
    reveal_strlit("Tried to export two values with the same name from one module");
    reveal_strlit("String contained internal null bytes: ");
    reveal_strlit("CStr didn't end in a null byte: ");
    reveal_strlit("Conversion from string failed: ");
    reveal_strlit("quickjs library created a unknown error");
    reveal_strlit("quickjs generated an exception");
    reveal_strlit("IO Error: ");
    reveal_strlit("Restoring Persistent in an unrelated runtime");
}

/// The fixed parts of the descriptions that quote a name or a number hold
/// no control character.
proof fn lemma_quoting_parts_printable()
    ensures
        printable("Error converting from js '"@),
        printable("' into type '"@),
        printable("'"@),
        printable(": "@),
        printable("Error converting from '"@),
        printable("' into js '"@),
        printable("Error calling function with "@),
        printable(" argument(s) while "@),
        printable(".."@),
        printable(" expected"@),
        printable("Error resolving module '"@),
        printable("' from '"@),
        printable("Error loading module '"@),
{
    reveal_strlit("Error converting from js '");
    reveal_strlit("' into type '");
    reveal_strlit("'");
    reveal_strlit(": ");
    reveal_strlit("Error converting from '");
    reveal_strlit("' into js '");
    reveal_strlit("Error calling function with ");
    reveal_strlit(" argument(s) while ");
    reveal_strlit("..");
    reveal_strlit(" expected");
    reveal_strlit("Error resolving module '");
    reveal_strlit("' from '");
    reveal_strlit("Error loading module '");
}

/// The fixed parts of the descriptions lack every control character.
proof fn lemma_fixed_parts_lack(c: char)
    requires
        is_control(c),
    ensures
        lacks("Allocation failed while creating object"@, c),
        lacks("Tried to export two values with the same name from one module"@, c),
        lacks("String contained internal null bytes: "@, c),
        lacks("CStr didn't end in a null byte: "@, c),
        lacks("Conversion from string failed: "@, c),
        lacks("quickjs library created a unknown error"@, c),
        lacks("quickjs generated an exception"@, c),
        lacks("IO Error: "@, c),
        lacks("Restoring Persistent in an unrelated runtime"@, c),
        lacks("Error converting from js '"@, c),
        lacks("' into type '"@, c),
        lacks("'"@, c),
        lacks(": "@, c),
        lacks("Error converting from '"@, c),
        lacks("' into js '"@, c),
        lacks("Error calling function with "@, c),
        lacks(" argument(s) while "@, c),
        lacks(".."@, c),
        lacks(" expected"@, c),
        lacks("Error resolving module '"@, c),
        lacks("' from '"@, c),
        lacks("Error loading module '"@, c),
{
    lemma_plain_parts_printable();
    lemma_quoting_parts_printable();
    lemma_printable_lacks("Allocation failed while creating object"@, c);
    lemma_printable_lacks("Tried to export two values with the same name from one module"@, c);
    lemma_printable_lacks("String contained internal null bytes: "@, c);
    lemma_printable_lacks("CStr didn't end in a null byte: "@, c);
    lemma_printable_lacks("Conversion from string failed: "@, c);
    lemma_printable_lacks("quickjs library created a unknown error"@, c);
    lemma_printable_lacks("quickjs generated an exception"@, c);
    lemma_printable_lacks("IO Error: "@, c);
    lemma_printable_lacks("Restoring Persistent in an unrelated runtime"@, c);
    lemma_printable_lacks("Error converting from js '"@, c);
    lemma_printable_lacks("' into type '"@, c);
    lemma_printable_lacks("'"@, c);
    lemma_printable_lacks(": "@, c);
    lemma_printable_lacks("Error converting from '"@, c);
    lemma_printable_lacks("' into js '"@, c);
    lemma_printable_lacks("Error calling function with "@, c);
    lemma_printable_lacks(" argument(s) while "@, c);
    lemma_printable_lacks(".."@, c);
    lemma_printable_lacks(" expected"@, c);
    lemma_printable_lacks("Error resolving module '"@, c);
    lemma_printable_lacks("' from '"@, c);
    lemma_printable_lacks("Error loading module '"@, c);
}

/// What a message adds to a description holds a control character exactly
/// when the message does.
proof fn lemma_message_suffix_lacks(message: Option<Seq<char>>, c: char)
    requires
        is_control(c),
    ensures
        lacks(message_suffix(message), c) == message_lacks(message, c),
{
    lemma_fixed_parts_lack(c);
    if let Some(m) = message {
        lemma_lacks_concat(": "@, m, c);
    }
}

/// A rendered number holds no control character.
proof fn lemma_decimal_lacks(n: nat, c: char)
    requires
        is_control(c),
    ensures
        lacks(decimal(n), c),
{
    lemma_decimal_digits(n);
    assert forall|i: int| 0 <= i < decimal(n).len() implies #[trigger] decimal(n)[i] != c by {
        assert(is_digit(decimal(n)[i]));
    }
}

/// Every error has a description, and the description is not empty.
pub proof fn lemma_text_not_empty(error: ErrorView)
    ensures
        error.text().len() > 0,
{
    reveal_strlit("Allocation failed while creating object");
    reveal_strlit("Tried to export two values with the same name from one module");
    reveal_strlit("String contained internal null bytes: ");
    reveal_strlit("CStr didn't end in a null byte: ");
    reveal_strlit("Conversion from string failed: ");
    reveal_strlit("quickjs library created a unknown error");
    reveal_strlit("quickjs generated an exception");
    reveal_strlit("Error converting from js '");
    reveal_strlit("Error converting from '");
    reveal_strlit("Error calling function with ");
    reveal_strlit("Error resolving module '");
    reveal_strlit("Error loading module '");
    reveal_strlit("IO Error: ");
    reveal_strlit("Restoring Persistent in an unrelated runtime");
}

/// The description depends on the content of the error alone: two errors
/// with the same content have the same description and the same terminated
/// byte string.
pub proof fn lemma_text_deterministic(a: Error, b: Error)
    requires
        a@ == b@,
    ensures
        a@.text() == b@.text(),
        a@.c_string() == b@.c_string(),
{
}

/// A control character stands in the description of an error exactly when
/// it stands in one of the texts that the error carries: the fixed parts
/// and the numbers never bring one in.
pub proof fn lemma_text_lacks(error: ErrorView, c: char)
    requires
        is_control(c),
    ensures
        lacks(error.text(), c) == error.lacks(c),
{
    lemma_fixed_parts_lack(c);
    match error {
        ErrorView::InvalidString(cause) => {
            lemma_lacks_concat("String contained internal null bytes: "@, cause.description, c);
        },
        ErrorView::InvalidCStr(description) => {
            lemma_lacks_concat("CStr didn't end in a null byte: "@, description, c);
        },
        ErrorView::Utf8(cause) => {
            lemma_lacks_concat("Conversion from string failed: "@, cause.description, c);
        },
        ErrorView::Io(description) => {
            lemma_lacks_concat("IO Error: "@, description, c);
        },
        ErrorView::FromJs { from, to, message } => {
            let p1 = "Error converting from js '"@ + from;
            let p2 = p1 + "' into type '"@;
            let p3 = p2 + to;
            let p4 = p3 + "'"@;
            lemma_message_suffix_lacks(message, c);
            lemma_lacks_concat("Error converting from js '"@, from, c);
            lemma_lacks_concat(p1, "' into type '"@, c);
            lemma_lacks_concat(p2, to, c);
            lemma_lacks_concat(p3, "'"@, c);
            lemma_lacks_concat(p4, message_suffix(message), c);
        },
        ErrorView::IntoJs { from, to, message } => {
            let p1 = "Error converting from '"@ + from;
            let p2 = p1 + "' into js '"@;
            let p3 = p2 + to;
            let p4 = p3 + "'"@;
            lemma_message_suffix_lacks(message, c);
            lemma_lacks_concat("Error converting from '"@, from, c);
            lemma_lacks_concat(p1, "' into js '"@, c);
            lemma_lacks_concat(p2, to, c);
            lemma_lacks_concat(p3, "'"@, c);
            lemma_lacks_concat(p4, message_suffix(message), c);
        },
        ErrorView::NumArgs { least, most, given } => {
            let p1 = "Error calling function with "@ + decimal(given);
            let p2 = p1 + " argument(s) while "@;
            let p3 = p2 + decimal(least);
            let p4 = p3 + ".."@;
            let p5 = p4 + most_text(most);
            lemma_decimal_lacks(given, c);
            lemma_decimal_lacks(least, c);
            if let Some(n) = most {
                lemma_decimal_lacks(n, c);
            }
            lemma_lacks_concat("Error calling function with "@, decimal(given), c);
            lemma_lacks_concat(p1, " argument(s) while "@, c);
            lemma_lacks_concat(p2, decimal(least), c);
            lemma_lacks_concat(p3, ".."@, c);
            lemma_lacks_concat(p4, most_text(most), c);
            lemma_lacks_concat(p5, " expected"@, c);
        },
        ErrorView::Resolving { base, name, message } => {
            let p1 = "Error resolving module '"@ + name;
            let p2 = p1 + "' from '"@;
            let p3 = p2 + base;
            let p4 = p3 + "'"@;
            lemma_message_suffix_lacks(message, c);
            lemma_lacks_concat("Error resolving module '"@, name, c);
            lemma_lacks_concat(p1, "' from '"@, c);
            lemma_lacks_concat(p2, base, c);
            lemma_lacks_concat(p3, "'"@, c);
            lemma_lacks_concat(p4, message_suffix(message), c);
        },
        ErrorView::Loading { name, message } => {
            let p1 = "Error loading module '"@ + name;
            let p2 = p1 + "'"@;
            lemma_message_suffix_lacks(message, c);
            lemma_lacks_concat("Error loading module '"@, name, c);
            lemma_lacks_concat(p1, "'"@, c);
            lemma_lacks_concat(p2, message_suffix(message), c);
        },
        _ => {},
    }
}

/// The description of an error holds no terminator character if the texts
/// that the error carries hold none, and only then.
pub proof fn lemma_text_nul_free(error: ErrorView)
    ensures
        nul_free(error.text()) == error.nul_free(),
{
    lemma_text_lacks(error, '\0');
}

/// The description of an error is a single line if the texts that the error
/// carries hold no line break, and only then.
pub proof fn lemma_text_single_line(error: ErrorView)
    ensures
        single_line(error.text()) == error.single_line(),
{
    lemma_text_lacks(error, '\n');
    lemma_text_lacks(error, '\r');
}

/// The terminated byte string of an error is the bytes of its description
/// followed by the terminator, and the description can be read back from it.
pub proof fn lemma_c_string_is_text_then_terminator(error: ErrorView)
    ensures
        error.c_string().len() == encode_utf8(error.text()).len() + 1,
        error.c_string().last() == 0u8,
        error.c_string().drop_last() == encode_utf8(error.text()),
        vstd::utf8::decode_utf8(error.c_string().drop_last()) == error.text(),
{
    vstd::utf8::encode_utf8_decode_utf8(error.text());
    assert(error.c_string().drop_last() =~= encode_utf8(error.text()));
}

/// The terminated byte string of an error holds exactly one terminator, at
/// its end, if the texts that the error carries hold no terminator
/// character, and only then.
pub proof fn lemma_c_string_terminated_once(error: ErrorView)
    ensures
        terminated_once(error.c_string()) == error.nul_free(),
{
    lemma_text_nul_free(error);
    lemma_encode_utf8_nul_free(error.text());
    assert(error.c_string().drop_last() =~= encode_utf8(error.text()));
}

/// An empty message is rendered like no message at all.
pub proof fn lemma_empty_message_is_no_message(error: ErrorView)
    ensures
        error.with_message(Some(Seq::empty())).text() == error.with_message(None).text(),
{
}

/// A message that is not empty comes last in the description, after a colon
/// and a space.
pub proof fn lemma_message_comes_last(error: ErrorView, message: Seq<char>)
    requires
        message.len() > 0,
        error is FromJs || error is IntoJs || error is Resolving || error is Loading,
    ensures
        error.with_message(Some(message)).text() == error.with_message(None).text() + ": "@
            + message,
{
    let plain = error.with_message(None).text();
    let full = error.with_message(Some(message)).text();
    assert(full =~= plain + ": "@ + message);
}

} // verus!
