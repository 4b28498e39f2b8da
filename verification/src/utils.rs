use vstd::prelude::*;

verus! {

/// What `String::from_utf8_lossy` makes of `bytes`: their UTF-8 decoding, with
/// every invalid sequence replaced by U+FFFD.
pub uninterp spec fn lossy_utf8(bytes: Seq<u8>) -> Seq<char>;

/// Every byte is ASCII.
pub open spec fn ascii(bytes: Seq<u8>) -> bool {
    forall|i: int| 0 <= i < bytes.len() ==> bytes[i] < 128
}

/// ASCII bytes read as text, one character per byte.
pub open spec fn ascii_text(bytes: Seq<u8>) -> Seq<char> {
    bytes.map_values(|b: u8| b as char)
}

/// Calls `String::from_utf8_lossy` and takes the text it returns as an owned
/// `String`. Claimed: the text is `lossy_utf8` of the bytes, and bytes that
/// are all ASCII decode one character per byte.
#[verifier::external_body]
pub(crate) fn utf8_lossy(bytes: &[u8]) -> (text: String)
    ensures
        text@ == lossy_utf8(bytes@),
        ascii(bytes@) ==> text@ == ascii_text(bytes@),
{
    String::from_utf8_lossy(bytes).into_owned()
}

/// Calls `String::push`, which appends one character.
#[verifier::external_body]
pub(crate) fn push_char(text: &mut String, c: char)
    ensures
        final(text)@ == old(text)@.push(c),
{
    text.push(c)
}

/// `text` without its first `count` characters (empty when it has fewer).
pub open spec fn without_front(text: Seq<char>, count: int) -> Seq<char> {
    if count <= text.len() {
        text.subrange(count, text.len() as int)
    } else {
        Seq::empty()
    }
}

/// Putting an ASCII character in front of a string and then trimming one
/// character off gives the string back, and the low byte of the new first
/// character is the one that was put there.
pub proof fn lemma_push_then_trim(text: Seq<char>, symbol: u8)
    requires
        symbol < 128,
    ensures
        without_front(seq![symbol as char] + text, 1) == text,
        (seq![symbol as char] + text)[0] as u8 == symbol,
{
    assert((seq![symbol as char] + text).subrange(1, text.len() + 1int) =~= text);
}

/// Character-level edits at the front of a string.
pub trait StringUtils: Sized {
    /// The characters of the string.
    spec fn characters(&self) -> Seq<char>;

    /// The string without its first `count` characters.
    fn trim_front(&self, count: usize) -> (trimmed: Self)
        ensures
            trimmed.characters() == without_front(self.characters(), count as int),
    ;

    /// The low byte of the first character's code point.
    fn peek_front(&self) -> (byte: u8)
        requires
            self.characters().len() > 0,
        ensures
            byte == self.characters()[0] as u8,
    ;

    /// The string with the ASCII character `symbol` put in front.
    fn push_front(&self, symbol: u8) -> (pushed: Self)
        requires
            symbol < 128,
        ensures
            pushed.characters() == seq![symbol as char] + self.characters(),
    ;
}

impl StringUtils for String {
    open spec fn characters(&self) -> Seq<char> {
        self@
    }

    fn trim_front(&self, count: usize) -> (trimmed: String) {
        let text = self.as_str();
        let len = text.unicode_len();
        let mut trimmed = String::new();
        if count > len {
            return trimmed;
        }
        let mut i = count;
        assert(trimmed@ =~= self@.subrange(count as int, i as int));
        while i < len
            invariant
                len == self@.len(),
                text@ == self@,
                count <= i <= len,
                trimmed@ == self@.subrange(count as int, i as int),
            decreases len - i,
        {
            push_char(&mut trimmed, text.get_char(i));
            assert(self@.subrange(count as int, i + 1) =~= self@.subrange(count as int, i as int).push(self@[i as int]));
            i = i + 1;
        }
        trimmed
    }

    fn peek_front(&self) -> (byte: u8) {
        self.as_str().get_char(0) as u8
    }

    fn push_front(&self, symbol: u8) -> (pushed: String) {
        let mut pushed = String::new();
        push_char(&mut pushed, symbol as char);
        pushed.append(self.as_str());
        pushed
    }
}

} // verus!
