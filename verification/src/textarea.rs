//! A text buffer with a cursor, and the cursor motions that the vim key
//! handling asks for. Positions that leave this module are byte offsets into
//! the UTF-8 text; inside, the cursor is kept as an index into the text's
//! characters.
use vstd::prelude::*;
use vstd::utf8::*;

verus! {

broadcast use vstd::utf8::char_is_scalar;

/// The number of bytes of the UTF-8 encoding of `c`.
pub open spec fn char_width(c: char) -> nat {
    let u = c as u32;
    if u < 0x80 {
        1
    } else if u < 0x800 {
        2
    } else if u < 0x10000 {
        3
    } else {
        4
    }
}

/// The number of bytes of the UTF-8 encoding of `s`.
pub open spec fn byte_len(s: Seq<char>) -> nat {
    encode_utf8(s).len()
}

/// The byte offset at which the character at index `i` of `s` starts.
pub open spec fn byte_offset(s: Seq<char>, i: int) -> nat {
    byte_len(s.take(i))
}

pub proof fn lemma_encode_one(c: char)
    ensures
        byte_len(seq![c]) == char_width(c),
{
    let s = seq![c];
    assert(s.drop_first() =~= Seq::<char>::empty());
    assert(encode_utf8(s.drop_first()).len() == 0);
    assert(is_scalar(c as u32));
}

pub proof fn lemma_byte_len_concat(a: Seq<char>, b: Seq<char>)
    ensures
        byte_len(a + b) == byte_len(a) + byte_len(b),
    decreases a.len(),
{
    if a.len() == 0 {
        assert(a + b =~= b);
    } else {
        assert((a + b).drop_first() =~= a.drop_first() + b);
        assert((a + b)[0] == a[0]);
        lemma_byte_len_concat(a.drop_first(), b);
    }
}

/// One more character moves the byte offset by that character's width.
pub proof fn lemma_byte_offset_next(s: Seq<char>, i: int)
    requires
        0 <= i < s.len(),
    ensures
        byte_offset(s, i + 1) == byte_offset(s, i) + char_width(s[i]),
{
    assert(s.take(i + 1) =~= s.take(i) + seq![s[i]]);
    lemma_byte_len_concat(s.take(i), seq![s[i]]);
    lemma_encode_one(s[i]);
}

/// Byte offsets grow strictly with the character index.
pub proof fn lemma_byte_offset_increasing(s: Seq<char>, i: int, j: int)
    requires
        0 <= i <= j <= s.len(),
    ensures
        byte_offset(s, i) <= byte_offset(s, j),
        i < j ==> byte_offset(s, i) < byte_offset(s, j),
        byte_offset(s, j) <= byte_len(s),
{
    assert(s.take(j) =~= s.take(i) + s.subrange(i, j));
    lemma_byte_len_concat(s.take(i), s.subrange(i, j));
    assert(s =~= s.take(j) + s.subrange(j, s.len() as int));
    lemma_byte_len_concat(s.take(j), s.subrange(j, s.len() as int));
    if i < j {
        let r = s.subrange(i, j);
        assert(r =~= seq![r[0]] + r.drop_first());
        lemma_byte_len_concat(seq![r[0]], r.drop_first());
        lemma_encode_one(r[0]);
    }
}

pub proof fn lemma_byte_offset_ends(s: Seq<char>)
    ensures
        byte_offset(s, 0) == 0,
        byte_offset(s, s.len() as int) == byte_len(s),
{
    assert(s.take(0) =~= Seq::<char>::empty());
    assert(s.take(s.len() as int) =~= s);
}

/// The UTF-8 width of `c`, as `char::len_utf8` gives it.
pub fn utf8_width(c: char) -> (w: usize)
    ensures
        w == char_width(c),
{
    let u = c as u32;
    if u < 0x80 {
        1
    } else if u < 0x800 {
        2
    } else if u < 0x10000 {
        3
    } else {
        4
    }
}

} // verus!

verus! {

/// The Unicode `White_Space` property, which `char::is_whitespace` tests.
pub open spec fn is_white_space(c: char) -> bool {
    let u = c as u32;
    ||| 0x09 <= u <= 0x0D
    ||| u == 0x20
    ||| u == 0x85
    ||| u == 0xA0
    ||| u == 0x1680
    ||| 0x2000 <= u <= 0x200A
    ||| u == 0x2028
    ||| u == 0x2029
    ||| u == 0x202F
    ||| u == 0x205F
    ||| u == 0x3000
}

/// `char::is_whitespace` of std: true exactly for the characters with the
/// Unicode `White_Space` property, listed in `is_white_space`.
#[verifier::external_body]
fn is_whitespace(c: char) -> (b: bool)
    ensures
        b == is_white_space(c),
{
    c.is_whitespace()
}

/// The punctuation that separates words, apart from white space.
pub open spec fn is_word_separator(c: char) -> bool {
    ||| c == '`' || c == '~' || c == '!' || c == '@' || c == '#' || c == '$' || c == '%'
    ||| c == '^' || c == '&' || c == '*' || c == '(' || c == ')' || c == '-' || c == '='
    ||| c == '+' || c == '[' || c == '{' || c == ']' || c == '}' || c == '\\' || c == '|'
    ||| c == ';' || c == ':' || c == '\'' || c == '"' || c == ',' || c == '.' || c == '<'
    ||| c == '>' || c == '/' || c == '?'
}

fn word_separator(c: char) -> (b: bool)
    ensures
        b == is_word_separator(c),
{
    matches!(
        c,
        '`' | '~' | '!' | '@' | '#' | '$' | '%' | '^' | '&' | '*' | '(' | ')' | '-' | '=' | '+'
            | '[' | '{' | ']' | '}' | '\\' | '|' | ';' | ':' | '\'' | '"' | ',' | '.' | '<' | '>'
            | '/' | '?'
    )
}

/// An atomic element of the text (such as a placeholder for pasted content),
/// given by its byte range.
#[derive(Clone, Copy, Debug, PartialEq, Eq, Structural)]
pub struct TextElement {
    pub start: usize,
    pub end: usize,
}

/// The contents of a text area: its characters, the index of the character
/// the cursor stands before, and its atomic elements.
pub struct TextAreaView {
    pub text: Seq<char>,
    pub cursor: int,
    pub elements: Seq<TextElement>,
}

impl TextAreaView {
    /// The cursor as a byte offset.
    pub open spec fn cursor_byte(self) -> nat {
        byte_offset(self.text, self.cursor)
    }

    pub open spec fn well_formed(self) -> bool {
        &&& 0 <= self.cursor <= self.text.len()
        &&& byte_len(self.text) <= usize::MAX
    }
}

/// The largest character index whose byte offset is at most `b`, scanning from `i`.
pub open spec fn floor_index_from(t: Seq<char>, b: int, i: int) -> int
    decreases t.len() - i,
{
    if 0 <= i < t.len() && byte_offset(t, i + 1) <= b {
        floor_index_from(t, b, i + 1)
    } else {
        i
    }
}

/// The index of the character boundary at or before byte offset `b`
/// (the end of the text when `b` is past it).
pub open spec fn floor_index(t: Seq<char>, b: int) -> int {
    floor_index_from(t, b, 0)
}

pub struct TextArea {
    text: String,
    chars: Vec<char>,
    cursor: usize,
    elements: Vec<TextElement>,
}

impl View for TextArea {
    type V = TextAreaView;

    closed spec fn view(&self) -> TextAreaView {
        TextAreaView { text: self.chars@, cursor: self.cursor as int, elements: self.elements@ }
    }
}

impl TextArea {
    #[verifier::type_invariant]
    spec fn inv(self) -> bool {
        &&& self.chars@ == self.text@
        &&& self.cursor <= self.chars@.len()
        &&& byte_len(self.chars@) <= usize::MAX
    }

    /// An empty text area.
    pub fn new() -> (t: TextArea)
        ensures
            t@.text == Seq::<char>::empty(),
            t@.cursor == 0,
            t@.elements == Seq::<TextElement>::empty(),
    {
        let t = TextArea { text: String::new(), chars: Vec::new(), cursor: 0, elements: Vec::new() };
        proof {
            assert(encode_utf8(Seq::<char>::empty()).len() == 0);
        }
        t
    }

    /// The text.
    pub fn text(&self) -> (s: &str)
        ensures
            s@ == self@.text,
            self@.well_formed(),
    {
        proof {
            use_type_invariant(self);
        }
        self.text.as_str()
    }

    /// The atomic elements.
    pub fn text_elements(&self) -> (v: Vec<TextElement>)
        ensures
            v@ == self@.elements,
    {
        let mut v: Vec<TextElement> = Vec::new();
        let n = self.elements.len();
        for i in 0..n
            invariant
                n == self.elements@.len(),
                v@ == self.elements@.take(i as int),
        {
            v.push(self.elements[i]);
            proof {
                assert(self.elements@.take(i + 1) =~= self.elements@.take(i as int).push(
                    self.elements@[i as int],
                ));
            }
        }
        proof {
            assert(self.elements@.take(n as int) =~= self.elements@);
        }
        v
    }

    /// The byte offset of the character at index `i`.
    pub fn byte_offset_of(&self, i: usize) -> (b: usize)
        requires
            i <= self@.text.len(),
        ensures
            b == byte_offset(self@.text, i as int),
    {
        proof {
            use_type_invariant(self);
            lemma_byte_offset_ends(self.chars@);
        }
        let mut b: usize = 0;
        let mut k: usize = 0;
        while k < i
            invariant
                k <= i <= self.chars@.len(),
                b == byte_offset(self.chars@, k as int),
                byte_len(self.chars@) <= usize::MAX,
            decreases i - k,
        {
            proof {
                lemma_byte_offset_next(self.chars@, k as int);
                lemma_byte_offset_increasing(self.chars@, k as int + 1, self.chars@.len() as int);
            }
            b = b + utf8_width(self.chars[k]);
            k = k + 1;
        }
        b
    }

    /// The character index at or before byte offset `b`.
    fn floor_index_of(&self, b: usize) -> (i: usize)
        ensures
            i == floor_index(self@.text, b as int),
            i <= self@.text.len(),
    {
        proof {
            use_type_invariant(self);
            lemma_byte_offset_ends(self.chars@);
        }
        let n = self.chars.len();
        let mut i: usize = 0;
        let mut sum: usize = 0;
        while i < n
            invariant
                n == self.chars@.len(),
                i <= n,
                sum == byte_offset(self.chars@, i as int),
                byte_len(self.chars@) <= usize::MAX,
                floor_index_from(self.chars@, b as int, i as int) == floor_index(
                    self.chars@,
                    b as int,
                ),
            ensures
                i <= n,
                i == floor_index(self.chars@, b as int),
            decreases n - i,
        {
            proof {
                lemma_byte_offset_next(self.chars@, i as int);
                lemma_byte_offset_increasing(self.chars@, i as int + 1, n as int);
            }
            let next = sum + utf8_width(self.chars[i]);
            if next > b {
                break;
            }
            sum = next;
            i = i + 1;
        }
        i
    }

    /// Replaces the text and the atomic elements. The cursor keeps its byte
    /// offset, moved back to a character boundary and to the end of the new
    /// text where it falls inside a character or past the end.
    pub fn set_text_with_elements(&mut self, text: &str, elements: &[TextElement])
        requires
            byte_len(text@) <= usize::MAX,
        ensures
            final(self)@.text == text@,
            final(self)@.elements == elements@,
            final(self)@.cursor == floor_index(text@, old(self)@.cursor_byte() as int),
    {
        let old_cursor = self.cursor();
        let mut chars: Vec<char> = Vec::new();
        for c in it: text.chars()
            invariant
                chars@ == it.seq().take(it.index()),
                it.seq() == text@,
        {
            chars.push(c);
        }
        let mut elems: Vec<TextElement> = Vec::new();
        let n = elements.len();
        for i in 0..n
            invariant
                n == elements@.len(),
                elems@ == elements@.take(i as int),
        {
            elems.push(elements[i]);
            proof {
                assert(elements@.take(i + 1) =~= elements@.take(i as int).push(elements@[i as int]));
            }
        }
        proof {
            assert(elements@.take(n as int) =~= elements@);
        }
        let owned = text.to_owned();
        assert(chars@ == text@);
        assert(owned@ == text@);
        let fresh = TextArea { text: owned, chars, cursor: 0, elements: elems };
        let cursor = fresh.floor_index_of(old_cursor);
        *self = TextArea { cursor, ..fresh };
    }

    /// The cursor, as a byte offset.
    pub fn cursor(&self) -> (b: usize)
        ensures
            b == self@.cursor_byte(),
            self@.well_formed(),
    {
        proof {
            use_type_invariant(self);
        }
        self.byte_offset_of(self.cursor)
    }

    /// Puts the cursor at the character boundary at or before byte offset
    /// `pos`, or at the end of the text when `pos` is past it.
    pub fn set_cursor(&mut self, pos: usize)
        ensures
            final(self)@ == (TextAreaView { cursor: floor_index(old(self)@.text, pos as int), ..old(self)@ }),
    {
        proof {
            use_type_invariant(&*self);
        }
        let i = self.floor_index_of(pos);
        self.cursor = i;
    }
}

} // verus!

verus! {

// ---------------------------------------------------------------------------
// Positions in the text, as character indices.
// ---------------------------------------------------------------------------

/// The start of the line holding index `i`: just after the last newline before `i`.
pub open spec fn line_start(t: Seq<char>, i: int) -> int
    decreases i,
{
    if i <= 0 {
        0
    } else if t[i - 1] == '\n' {
        i
    } else {
        line_start(t, i - 1)
    }
}

/// The end of the line holding index `i`: the first newline at or after `i`,
/// or the end of the text.
pub open spec fn line_end(t: Seq<char>, i: int) -> int
    decreases t.len() - i,
{
    if i >= t.len() {
        t.len() as int
    } else if t[i] == '\n' {
        i
    } else {
        line_end(t, i + 1)
    }
}

/// The first index at or after `i` that is not white space, or the end of the text.
pub open spec fn skip_space_forward(t: Seq<char>, i: int) -> int
    decreases t.len() - i,
{
    if i >= t.len() {
        t.len() as int
    } else if !is_white_space(t[i]) {
        i
    } else {
        skip_space_forward(t, i + 1)
    }
}

/// The largest index at or before `i` that follows a character that is not
/// white space, or 0.
pub open spec fn skip_space_backward(t: Seq<char>, i: int) -> int
    decreases i,
{
    if i <= 0 {
        0
    } else if !is_white_space(t[i - 1]) {
        i
    } else {
        skip_space_backward(t, i - 1)
    }
}

/// The end of the run of word characters (`sep` false) or of separators
/// (`sep` true) that continues at index `i`.
pub open spec fn run_end(t: Seq<char>, i: int, sep: bool) -> int
    decreases t.len() - i,
{
    if i >= t.len() {
        t.len() as int
    } else if is_white_space(t[i]) || is_word_separator(t[i]) != sep {
        i
    } else {
        run_end(t, i + 1, sep)
    }
}

/// The start of the run of word characters (`sep` false) or of separators
/// (`sep` true) that continues backwards before index `i`.
pub open spec fn run_start(t: Seq<char>, i: int, sep: bool) -> int
    decreases i,
{
    if i <= 0 {
        0
    } else if is_white_space(t[i - 1]) || is_word_separator(t[i - 1]) != sep {
        i
    } else {
        run_start(t, i - 1, sep)
    }
}

/// Where the next word starts: past the rest of the word under `c`, then past
/// white space.
pub open spec fn next_word_start(t: Seq<char>, c: int) -> int {
    if 0 <= c < t.len() && !is_white_space(t[c]) {
        skip_space_forward(t, run_end(t, c + 1, is_word_separator(t[c])))
    } else {
        skip_space_forward(t, c)
    }
}

/// Where the next word ends: past white space from `c`, then past that word.
pub open spec fn next_word_end(t: Seq<char>, c: int) -> int {
    let w = skip_space_forward(t, c);
    if w >= t.len() {
        t.len() as int
    } else {
        run_end(t, w + 1, is_word_separator(t[w]))
    }
}

/// Where the word before `c` starts: back over white space, then back over that word.
pub open spec fn previous_word_start(t: Seq<char>, c: int) -> int {
    let p = skip_space_backward(t, c);
    if p <= 0 {
        0
    } else {
        run_start(t, p - 1, is_word_separator(t[p - 1]))
    }
}

/// The first character of the line holding `c` that is not white space, or
/// the end of that line.
pub open spec fn first_non_blank(t: Seq<char>, c: int) -> int {
    let j = skip_space_forward(t, line_start(t, c));
    if j < line_end(t, c) {
        j
    } else {
        line_end(t, c)
    }
}

pub open spec fn min_int(a: int, b: int) -> int {
    if a <= b {
        a
    } else {
        b
    }
}

/// The cursor one line up, in the same column or at the end of a shorter
/// line; from the first line, the start of the text.
pub open spec fn line_up(t: Seq<char>, c: int) -> int {
    let ls = line_start(t, c);
    if ls == 0 {
        0
    } else {
        let ps = line_start(t, ls - 1);
        ps + min_int(c - ls, (ls - 1) - ps)
    }
}

/// The cursor one line down, in the same column or at the end of a shorter
/// line; from the last line, the end of the text.
pub open spec fn line_down(t: Seq<char>, c: int) -> int {
    let le = line_end(t, c);
    if le >= t.len() {
        t.len() as int
    } else {
        let ns = le + 1;
        ns + min_int(c - line_start(t, c), line_end(t, ns) - ns)
    }
}

/// One character left, staying at the start of the text.
pub open spec fn char_left(c: int) -> int {
    if c > 0 {
        c - 1
    } else {
        0
    }
}

/// One character right, staying at the end of the text.
pub open spec fn char_right(t: Seq<char>, c: int) -> int {
    if c < t.len() {
        c + 1
    } else {
        t.len() as int
    }
}

// ---------------------------------------------------------------------------
// Bounds of these positions.
// ---------------------------------------------------------------------------

pub proof fn lemma_line_start_bounds(t: Seq<char>, i: int)
    requires
        0 <= i <= t.len(),
    ensures
        0 <= line_start(t, i) <= i,
        forall|k: int| line_start(t, i) <= k < i ==> t[k] != '\n',
        line_start(t, i) > 0 ==> t[line_start(t, i) - 1] == '\n',
    decreases i,
{
    if i > 0 && t[i - 1] != '\n' {
        lemma_line_start_bounds(t, i - 1);
    }
}

pub proof fn lemma_line_end_bounds(t: Seq<char>, i: int)
    requires
        0 <= i <= t.len(),
    ensures
        i <= line_end(t, i) <= t.len(),
        forall|k: int| i <= k < line_end(t, i) ==> t[k] != '\n',
        line_end(t, i) < t.len() ==> t[line_end(t, i)] == '\n',
    decreases t.len() - i,
{
    if i < t.len() && t[i] != '\n' {
        lemma_line_end_bounds(t, i + 1);
    }
}

pub proof fn lemma_skip_space_forward_bounds(t: Seq<char>, i: int)
    requires
        0 <= i <= t.len(),
    ensures
        i <= skip_space_forward(t, i) <= t.len(),
        forall|k: int| i <= k < skip_space_forward(t, i) ==> is_white_space(#[trigger] t[k]),
    decreases t.len() - i,
{
    if i < t.len() && is_white_space(t[i]) {
        lemma_skip_space_forward_bounds(t, i + 1);
    }
}

pub proof fn lemma_skip_space_backward_bounds(t: Seq<char>, i: int)
    requires
        0 <= i <= t.len(),
    ensures
        0 <= skip_space_backward(t, i) <= i,
    decreases i,
{
    if i > 0 && is_white_space(t[i - 1]) {
        lemma_skip_space_backward_bounds(t, i - 1);
    }
}

pub proof fn lemma_run_end_bounds(t: Seq<char>, i: int, sep: bool)
    requires
        0 <= i <= t.len(),
    ensures
        i <= run_end(t, i, sep) <= t.len(),
    decreases t.len() - i,
{
    if i < t.len() && !(is_white_space(t[i]) || is_word_separator(t[i]) != sep) {
        lemma_run_end_bounds(t, i + 1, sep);
    }
}

pub proof fn lemma_run_start_bounds(t: Seq<char>, i: int, sep: bool)
    requires
        0 <= i <= t.len(),
    ensures
        0 <= run_start(t, i, sep) <= i,
    decreases i,
{
    if i > 0 && !(is_white_space(t[i - 1]) || is_word_separator(t[i - 1]) != sep) {
        lemma_run_start_bounds(t, i - 1, sep);
    }
}

} // verus!

verus! {

impl TextArea {
    fn scan_line_start(&self, i: usize) -> (r: usize)
        requires
            i <= self@.text.len(),
        ensures
            r == line_start(self@.text, i as int),
    {
        let mut j = i;
        while j > 0 && self.chars[j - 1] != '\n'
            invariant
                j <= i <= self.chars@.len(),
                line_start(self.chars@, j as int) == line_start(self.chars@, i as int),
            decreases j,
        {
            j = j - 1;
        }
        j
    }

    fn scan_line_end(&self, i: usize) -> (r: usize)
        requires
            i <= self@.text.len(),
        ensures
            r == line_end(self@.text, i as int),
    {
        let n = self.chars.len();
        let mut j = i;
        while j < n && self.chars[j] != '\n'
            invariant
                n == self.chars@.len(),
                i <= j <= n,
                line_end(self.chars@, j as int) == line_end(self.chars@, i as int),
            decreases n - j,
        {
            j = j + 1;
        }
        j
    }

    fn scan_space_forward(&self, i: usize) -> (r: usize)
        requires
            i <= self@.text.len(),
        ensures
            r == skip_space_forward(self@.text, i as int),
    {
        let n = self.chars.len();
        let mut j = i;
        while j < n && is_whitespace(self.chars[j])
            invariant
                n == self.chars@.len(),
                i <= j <= n,
                skip_space_forward(self.chars@, j as int) == skip_space_forward(
                    self.chars@,
                    i as int,
                ),
            decreases n - j,
        {
            j = j + 1;
        }
        j
    }

    fn scan_space_backward(&self, i: usize) -> (r: usize)
        requires
            i <= self@.text.len(),
        ensures
            r == skip_space_backward(self@.text, i as int),
    {
        let mut j = i;
        while j > 0 && is_whitespace(self.chars[j - 1])
            invariant
                j <= i <= self.chars@.len(),
                skip_space_backward(self.chars@, j as int) == skip_space_backward(
                    self.chars@,
                    i as int,
                ),
            decreases j,
        {
            j = j - 1;
        }
        j
    }

    fn scan_run_end(&self, i: usize, sep: bool) -> (r: usize)
        requires
            i <= self@.text.len(),
        ensures
            r == run_end(self@.text, i as int, sep),
    {
        let n = self.chars.len();
        let mut j = i;
        while j < n && !is_whitespace(self.chars[j]) && word_separator(self.chars[j]) == sep
            invariant
                n == self.chars@.len(),
                i <= j <= n,
                run_end(self.chars@, j as int, sep) == run_end(self.chars@, i as int, sep),
            decreases n - j,
        {
            j = j + 1;
        }
        j
    }

    fn scan_run_start(&self, i: usize, sep: bool) -> (r: usize)
        requires
            i <= self@.text.len(),
        ensures
            r == run_start(self@.text, i as int, sep),
    {
        let mut j = i;
        while j > 0 && !is_whitespace(self.chars[j - 1]) && word_separator(self.chars[j - 1]) == sep
            invariant
                j <= i <= self.chars@.len(),
                run_start(self.chars@, j as int, sep) == run_start(self.chars@, i as int, sep),
            decreases j,
        {
            j = j - 1;
        }
        j
    }

    /// Moves the cursor one character left.
    pub fn move_cursor_left(&mut self)
        ensures
            final(self)@ == (TextAreaView { cursor: char_left(old(self)@.cursor), ..old(self)@ }),
    {
        proof {
            use_type_invariant(&*self);
        }
        if self.cursor > 0 {
            self.cursor = self.cursor - 1;
        }
    }

    /// Moves the cursor one character right.
    pub fn move_cursor_right(&mut self)
        ensures
            final(self)@ == (TextAreaView {
                cursor: char_right(old(self)@.text, old(self)@.cursor),
                ..old(self)@
            }),
    {
        proof {
            use_type_invariant(&*self);
        }
        if self.cursor < self.chars.len() {
            self.cursor = self.cursor + 1;
        }
    }

    /// Moves the cursor one line up.
    pub fn move_cursor_up(&mut self)
        ensures
            final(self)@ == (TextAreaView {
                cursor: line_up(old(self)@.text, old(self)@.cursor),
                ..old(self)@
            }),
    {
        proof {
            use_type_invariant(&*self);
        }
        let c = self.cursor;
        let ls = self.scan_line_start(c);
        proof {
            lemma_line_start_bounds(self.chars@, c as int);
        }
        if ls == 0 {
            self.cursor = 0;
        } else {
            let ps = self.scan_line_start(ls - 1);
            proof {
                lemma_line_start_bounds(self.chars@, ls - 1);
            }
            let col = c - ls;
            let width = (ls - 1) - ps;
            self.cursor = ps + if col <= width {
                col
            } else {
                width
            };
        }
    }

    /// Moves the cursor one line down.
    pub fn move_cursor_down(&mut self)
        ensures
            final(self)@ == (TextAreaView {
                cursor: line_down(old(self)@.text, old(self)@.cursor),
                ..old(self)@
            }),
    {
        proof {
            use_type_invariant(&*self);
        }
        let c = self.cursor;
        let n = self.chars.len();
        let le = self.scan_line_end(c);
        proof {
            lemma_line_end_bounds(self.chars@, c as int);
        }
        if le >= n {
            self.cursor = n;
        } else {
            let ls = self.scan_line_start(c);
            let ns = le + 1;
            let ne = self.scan_line_end(ns);
            proof {
                lemma_line_start_bounds(self.chars@, c as int);
                lemma_line_end_bounds(self.chars@, ns as int);
            }
            let col = c - ls;
            let width = ne - ns;
            self.cursor = ns + if col <= width {
                col
            } else {
                width
            };
        }
    }

    /// The start of the cursor's line, as a byte offset.
    pub fn current_line_start(&self) -> (b: usize)
        ensures
            b == byte_offset(self@.text, line_start(self@.text, self@.cursor)),
    {
        proof {
            use_type_invariant(self);
            lemma_line_start_bounds(self.chars@, self.cursor as int);
        }
        let i = self.scan_line_start(self.cursor);
        self.byte_offset_of(i)
    }

    /// The end of the cursor's line, as a byte offset.
    pub fn current_line_end(&self) -> (b: usize)
        ensures
            b == byte_offset(self@.text, line_end(self@.text, self@.cursor)),
    {
        proof {
            use_type_invariant(self);
            lemma_line_end_bounds(self.chars@, self.cursor as int);
        }
        let i = self.scan_line_end(self.cursor);
        self.byte_offset_of(i)
    }

    /// The byte range of the cursor's line, without its newline.
    pub fn current_line_range(&self) -> (r: core::ops::Range<usize>)
        ensures
            r.start == byte_offset(self@.text, line_start(self@.text, self@.cursor)),
            r.end == byte_offset(self@.text, line_end(self@.text, self@.cursor)),
    {
        let start = self.current_line_start();
        let end = self.current_line_end();
        start..end
    }

    /// The first character of the cursor's line that is not white space (the
    /// end of the line if there is none), as a byte offset.
    pub fn first_non_blank_of_current_line(&self) -> (b: usize)
        ensures
            b == byte_offset(self@.text, first_non_blank(self@.text, self@.cursor)),
    {
        proof {
            use_type_invariant(self);
            lemma_line_start_bounds(self.chars@, self.cursor as int);
            lemma_line_end_bounds(self.chars@, self.cursor as int);
        }
        let ls = self.scan_line_start(self.cursor);
        let le = self.scan_line_end(self.cursor);
        proof {
            lemma_skip_space_forward_bounds(self.chars@, ls as int);
        }
        let j = self.scan_space_forward(ls);
        let i = if j < le {
            j
        } else {
            le
        };
        self.byte_offset_of(i)
    }

    /// Where the next word starts, as a byte offset.
    pub fn start_of_next_word(&self) -> (b: usize)
        ensures
            b == byte_offset(self@.text, next_word_start(self@.text, self@.cursor)),
    {
        proof {
            use_type_invariant(self);
        }
        let c = self.cursor;
        let i = if c < self.chars.len() && !is_whitespace(self.chars[c]) {
            let sep = word_separator(self.chars[c]);
            let e = self.scan_run_end(c + 1, sep);
            proof {
                lemma_run_end_bounds(self.chars@, c + 1, sep);
            }
            self.scan_space_forward(e)
        } else {
            self.scan_space_forward(c)
        };
        proof {
            lemma_skip_space_forward_bounds(self.chars@, c as int);
            if c < self.chars.len() && !is_white_space(self.chars@[c as int]) {
                let sep = is_word_separator(self.chars@[c as int]);
                lemma_run_end_bounds(self.chars@, c + 1, sep);
                lemma_skip_space_forward_bounds(self.chars@, run_end(self.chars@, c + 1, sep));
            }
        }
        self.byte_offset_of(i)
    }

    /// Where the next word ends, as a byte offset.
    pub fn end_of_next_word(&self) -> (b: usize)
        ensures
            b == byte_offset(self@.text, next_word_end(self@.text, self@.cursor)),
    {
        proof {
            use_type_invariant(self);
            lemma_skip_space_forward_bounds(self.chars@, self.cursor as int);
        }
        let w = self.scan_space_forward(self.cursor);
        let n = self.chars.len();
        let i = if w >= n {
            n
        } else {
            let sep = word_separator(self.chars[w]);
            proof {
                lemma_run_end_bounds(self.chars@, w + 1, sep);
            }
            self.scan_run_end(w + 1, sep)
        };
        self.byte_offset_of(i)
    }

    /// Where the word before the cursor starts, as a byte offset.
    pub fn beginning_of_previous_word(&self) -> (b: usize)
        ensures
            b == byte_offset(self@.text, previous_word_start(self@.text, self@.cursor)),
    {
        proof {
            use_type_invariant(self);
            lemma_skip_space_backward_bounds(self.chars@, self.cursor as int);
        }
        let p = self.scan_space_backward(self.cursor);
        let i = if p == 0 {
            0
        } else {
            let sep = word_separator(self.chars[p - 1]);
            proof {
                lemma_run_start_bounds(self.chars@, p - 1, sep);
            }
            self.scan_run_start(p - 1, sep)
        };
        self.byte_offset_of(i)
    }

    /// The number of characters of the text.
    pub fn char_count(&self) -> (n: usize)
        ensures
            n == self@.text.len(),
    {
        self.chars.len()
    }

    /// The character at index `i`.
    pub fn char_at(&self, i: usize) -> (c: char)
        requires
            i < self@.text.len(),
        ensures
            c == self@.text[i as int],
    {
        self.chars[i]
    }

    /// The cursor, as a character index.
    pub fn cursor_index(&self) -> (i: usize)
        ensures
            i == self@.cursor,
            self@.well_formed(),
    {
        proof {
            use_type_invariant(self);
        }
        self.cursor
    }

    /// The start and end of the cursor's line, as character indices.
    pub fn current_line_bounds(&self) -> (r: (usize, usize))
        ensures
            r.0 == line_start(self@.text, self@.cursor),
            r.1 == line_end(self@.text, self@.cursor),
    {
        proof {
            use_type_invariant(self);
        }
        (self.scan_line_start(self.cursor), self.scan_line_end(self.cursor))
    }
}

/// The character boundary at a character's own byte offset is that character's index.
pub proof fn lemma_floor_index_of_offset(t: Seq<char>, c: int)
    requires
        0 <= c <= t.len(),
    ensures
        floor_index(t, byte_offset(t, c) as int) == c,
{
    lemma_floor_index_from_offset(t, c, 0);
}

proof fn lemma_floor_index_from_offset(t: Seq<char>, c: int, i: int)
    requires
        0 <= i <= c <= t.len(),
    ensures
        floor_index_from(t, byte_offset(t, c) as int, i) == c,
    decreases c - i,
{
    if i < c {
        lemma_byte_offset_increasing(t, i + 1, c);
        lemma_floor_index_from_offset(t, c, i + 1);
    } else if c < t.len() {
        lemma_byte_offset_increasing(t, c, c + 1);
    }
}

} // verus!
