//! Text as this client reads and writes it.

use vstd::prelude::*;

verus! {

/// `String::push`: appends the character at the end of the string.
pub assume_specification[ String::push ](s: &mut String, c: char)
    ensures
        final(s)@ == old(s)@.push(c),
;

/// Whether two texts hold the same characters.
pub fn same_text(a: &str, b: &str) -> (r: bool)
    ensures
        r == (a@ == b@),
{
    a.to_owned() == b.to_owned()
}

/// The characters of a text.
pub fn chars_of(text: &str) -> (chars: Vec<char>)
    ensures
        chars@ == text@,
{
    let mut chars: Vec<char> = Vec::new();
    for c in it: text.chars()
        invariant
            it.seq() == text@,
            chars@ == text@.take(it.index() as int),
    {
        assert(text@.take(it.index() + 1) =~= text@.take(it.index() as int).push(c));
        chars.push(c);
    }
    assert(text@.take(text@.len() as int) =~= text@);
    chars
}

/// The text that some characters spell.
pub fn text_of(chars: &Vec<char>) -> (text: String)
    ensures
        text@ == chars@,
{
    let mut text: String = String::new();
    let mut i: usize = 0;
    while i < chars.len()
        invariant
            i <= chars.len(),
            text@ == chars@.take(i as int),
        decreases chars.len() - i,
    {
        assert(chars@.take(i + 1) =~= chars@.take(i as int).push(chars@[i as int]));
        text.push(chars[i]);
        i = i + 1;
    }
    assert(chars@.take(chars@.len() as int) =~= chars@);
    text
}

/// The characters from one index up to another.
pub fn slice_of(chars: &Vec<char>, from: usize, to: usize) -> (r: Vec<char>)
    requires
        from <= to <= chars@.len(),
    ensures
        r@ == chars@.subrange(from as int, to as int),
{
    let mut r: Vec<char> = Vec::new();
    let mut i: usize = from;
    while i < to
        invariant
            from <= i <= to <= chars@.len(),
            r@ == chars@.subrange(from as int, i as int),
        decreases to - i,
    {
        r.push(chars[i]);
        assert(chars@.subrange(from as int, i + 1) =~= chars@.subrange(from as int, i as int).push(
            chars@[i as int],
        ));
        i = i + 1;
    }
    r
}

/// Two texts, one after the other.
pub fn join(a: &str, b: &str) -> (r: String)
    ensures
        r@ == a@ + b@,
{
    let mut r: String = a.to_owned();
    r.append(b);
    r
}

/// The characters with the Unicode property `White_Space`.
pub open spec fn blank(c: char) -> bool {
    ||| '\u{9}' <= c <= '\u{d}'
    ||| c == ' '
    ||| c == '\u{85}'
    ||| c == '\u{a0}'
    ||| c == '\u{1680}'
    ||| '\u{2000}' <= c <= '\u{200a}'
    ||| c == '\u{2028}'
    ||| c == '\u{2029}'
    ||| c == '\u{202f}'
    ||| c == '\u{205f}'
    ||| c == '\u{3000}'
}

/// Whether a character is white space.
pub fn is_blank(c: char) -> (r: bool)
    ensures
        r == blank(c),
{
    ('\u{9}' <= c && c <= '\u{d}') || c == ' ' || c == '\u{85}' || c == '\u{a0}' || c
        == '\u{1680}' || ('\u{2000}' <= c && c <= '\u{200a}') || c == '\u{2028}' || c
        == '\u{2029}' || c == '\u{202f}' || c == '\u{205f}' || c == '\u{3000}'
}

/// A text without the white space at its ends.
pub open spec fn trimmed(text: Seq<char>) -> Seq<char>
    decreases text.len(),
{
    if text.len() > 0 && blank(text[0]) {
        trimmed(text.subrange(1, text.len() as int))
    } else if text.len() > 0 && blank(text.last()) {
        trimmed(text.drop_last())
    } else {
        text
    }
}

/// A text without the white space at its ends.
pub fn trim(text: &str) -> (r: String)
    ensures
        r@ == trimmed(text@),
{
    let chars: Vec<char> = chars_of(text);
    let mut from: usize = 0;
    let mut to: usize = chars.len();
    assert(chars@.subrange(0, chars@.len() as int) =~= chars@);
    while from < to && is_blank(chars[from])
        invariant
            from <= to <= chars@.len(),
            to == chars@.len(),
            trimmed(chars@) == trimmed(chars@.subrange(from as int, to as int)),
        decreases to - from,
    {
        let ghost rest = chars@.subrange(from as int, to as int);
        assert(rest.subrange(1, rest.len() as int) =~= chars@.subrange(from + 1, to as int));
        from = from + 1;
    }
    while from < to && is_blank(chars[to - 1])
        invariant
            from <= to <= chars@.len(),
            from < to ==> !blank(chars@[from as int]),
            trimmed(chars@) == trimmed(chars@.subrange(from as int, to as int)),
        decreases to - from,
    {
        let ghost rest = chars@.subrange(from as int, to as int);
        assert(rest.drop_last() =~= chars@.subrange(from as int, to - 1));
        to = to - 1;
    }
    text_of(&slice_of(&chars, from, to))
}

/// What trimming leaves neither starts nor ends with white space, and trimming it again leaves it
/// as it is.
pub proof fn law_trimming_is_final(text: Seq<char>)
    ensures
        trimmed(text).len() > 0 ==> !blank(trimmed(text)[0]) && !blank(trimmed(text).last()),
        trimmed(trimmed(text)) == trimmed(text),
    decreases text.len(),
{
    if text.len() > 0 && blank(text[0]) {
        law_trimming_is_final(text.subrange(1, text.len() as int));
    } else if text.len() > 0 && blank(text.last()) {
        law_trimming_is_final(text.drop_last());
    }
}

/// A trimmed text, or `None` where nothing is left of it.
pub fn trimmed_or_none(text: &str) -> (r: Option<String>)
    ensures
        trimmed(text@).len() == 0 ==> r is None,
        trimmed(text@).len() > 0 ==> r is Some && r.unwrap()@ == trimmed(text@),
{
    let kept: String = trim(text);
    let chars: Vec<char> = chars_of(kept.as_str());
    if chars.len() == 0 {
        None
    } else {
        Some(kept)
    }
}

/// A text, or `None` where it is empty.
pub fn non_empty(text: Option<String>) -> (r: Option<String>)
    ensures
        r == some_text(text),
{
    match text {
        Some(held) => {
            if held.as_str().is_empty() {
                None
            } else {
                Some(held)
            }
        },
        None => None,
    }
}

pub open spec fn some_text(text: Option<String>) -> Option<String> {
    match text {
        Some(held) if held@.len() > 0 => text,
        _ => None,
    }
}

/// The lower-case form of an ASCII letter; any other character as it is.
pub open spec fn lower(c: char) -> char {
    if 'A' <= c <= 'Z' {
        ((c as u8 + 32) as u8) as char
    } else {
        c
    }
}

/// The lower-case form of an ASCII letter.
pub fn to_lower(c: char) -> (r: char)
    ensures
        r == lower(c),
{
    if 'A' <= c && c <= 'Z' {
        let code: u8 = c as u8;
        (code + 32) as char
    } else {
        c
    }
}

/// A text with its ASCII letters in lower case.
pub fn to_lower_text(chars: &Vec<char>) -> (r: Vec<char>)
    ensures
        r@ == chars@.map_values(|c: char| lower(c)),
{
    let mut r: Vec<char> = Vec::new();
    let mut i: usize = 0;
    while i < chars.len()
        invariant
            i <= chars.len(),
            r@.len() == i,
            forall|j: int| 0 <= j < i ==> r@[j] == lower(chars@[j]),
        decreases chars.len() - i,
    {
        r.push(to_lower(chars[i]));
        i = i + 1;
    }
    assert(r@ =~= chars@.map_values(|c: char| lower(c)));
    r
}

/// An address folded to its canonical form: without white space at its ends, without one leading
/// `0x`, in lower case.
pub open spec fn canonical(address: Seq<char>) -> Seq<char> {
    let text = trimmed(address);
    let bare = if text.len() >= 2 && text[0] == '0' && text[1] == 'x' {
        text.subrange(2, text.len() as int)
    } else {
        text
    };
    bare.map_values(|c: char| lower(c))
}

/// An address text folded to the registry's canonical form: lowercase hex, no prefix.
pub fn canonical_address(address: &str) -> (r: String)
    ensures
        r@ == canonical(address@),
{
    let text: String = trim(address);
    let chars: Vec<char> = chars_of(text.as_str());
    let bare: Vec<char> = if chars.len() >= 2 && chars[0] == '0' && chars[1] == 'x' {
        slice_of(&chars, 2, chars.len())
    } else {
        chars
    };
    text_of(&to_lower_text(&bare))
}

/// The digit of a number below sixteen.
pub open spec fn hex_digit(n: int) -> char {
    if n < 10 {
        (('0' as u8 + n) as u8) as char
    } else {
        (('a' as u8 + n - 10) as u8) as char
    }
}

/// Bytes as lowercase hex.
pub open spec fn hex(bytes: Seq<u8>) -> Seq<char>
    decreases bytes.len(),
{
    if bytes.len() == 0 {
        Seq::empty()
    } else {
        hex(bytes.drop_last()) + seq![
            hex_digit(bytes.last() as int / 16),
            hex_digit(bytes.last() as int % 16),
        ]
    }
}

fn digit_of(n: u8) -> (c: char)
    requires
        n < 16,
    ensures
        c == hex_digit(n as int),
{
    if n < 10 {
        (48 + n) as char
    } else {
        (87 + n) as char
    }
}

/// Bytes as lowercase hex, no prefix.
pub fn hex_of(bytes: &[u8]) -> (r: String)
    ensures
        r@ == hex(bytes@),
{
    let mut r: String = String::new();
    let mut i: usize = 0;
    assert(bytes@.take(0) =~= Seq::<u8>::empty());
    while i < bytes.len()
        invariant
            i <= bytes.len(),
            r@ == hex(bytes@.take(i as int)),
        decreases bytes.len() - i,
    {
        assert(bytes@.take(i + 1).drop_last() =~= bytes@.take(i as int));
        let ghost before = r@;
        r.push(digit_of(bytes[i] / 16));
        r.push(digit_of(bytes[i] % 16));
        assert(r@ =~= hex(bytes@.take(i + 1)));
        i = i + 1;
    }
    assert(bytes@.take(bytes@.len() as int) =~= bytes@);
    r
}

/// Two runs of bytes with the same hex are the same run, and hex takes two characters a byte.
pub proof fn law_hex_tells_bytes_apart(a: Seq<u8>, b: Seq<u8>)
    ensures
        hex(a).len() == 2 * a.len(),
        hex(a) == hex(b) ==> a == b,
    decreases a.len(),
{
    lemma_hex_len(a);
    lemma_hex_len(b);
    if hex(a) == hex(b) && a.len() > 0 && b.len() > 0 {
        let x = hex(a.drop_last());
        let y = hex(b.drop_last());
        law_hex_tells_bytes_apart(a.drop_last(), b.drop_last());
        lemma_hex_len(b.drop_last());
        assert(x.len() == y.len());
        assert(x =~= hex(a).take(x.len() as int));
        assert(y =~= hex(b).take(y.len() as int));
        assert(hex(a)[x.len() as int] == hex_digit(a.last() as int / 16));
        assert(hex(a)[x.len() as int + 1] == hex_digit(a.last() as int % 16));
        assert(hex(b)[x.len() as int] == hex_digit(b.last() as int / 16));
        assert(hex(b)[x.len() as int + 1] == hex_digit(b.last() as int % 16));
        assert(a.last() == b.last());
        assert(a =~= a.drop_last().push(a.last()));
        assert(b =~= b.drop_last().push(b.last()));
    } else if hex(a) == hex(b) {
        assert(a =~= b);
    }
}

proof fn lemma_hex_len(bytes: Seq<u8>)
    ensures
        hex(bytes).len() == 2 * bytes.len(),
    decreases bytes.len(),
{
    if bytes.len() > 0 {
        lemma_hex_len(bytes.drop_last());
    }
}

/// A number in decimal.
pub open spec fn decimal(n: nat) -> Seq<char>
    decreases n,
{
    if n < 10 {
        seq![hex_digit(n as int)]
    } else {
        decimal(n / 10).push(hex_digit((n % 10) as int))
    }
}

/// A number in decimal.
pub fn decimal_of(n: u64) -> (r: String)
    ensures
        r@ == decimal(n as nat),
    decreases n,
{
    let digit: char = digit_of((n % 10) as u8);
    if n < 10 {
        let mut r: String = String::new();
        r.push(digit);
        assert(r@ =~= seq![digit]);
        r
    } else {
        let mut r: String = decimal_of(n / 10);
        r.push(digit);
        r
    }
}

/// The image types a file name's extension can claim.
pub open spec fn mime_of_extension(extension: Seq<char>) -> Seq<char> {
    let folded = extension.map_values(|c: char| lower(c));
    if folded == "png"@ {
        "image/png"@
    } else if folded == "jpg"@ || folded == "jpeg"@ {
        "image/jpeg"@
    } else if folded == "webp"@ {
        "image/webp"@
    } else if folded == "gif"@ {
        "image/gif"@
    } else if folded == "avif"@ {
        "image/avif"@
    } else {
        "application/octet-stream"@
    }
}

/// The type to claim for an avatar file, from its extension.
///
/// A neutral claim for anything that is not an image: the server judges the bytes itself, so the
/// claim only has to be honest.
pub fn image_mime_of(extension: Option<&str>) -> (r: &'static str)
    ensures
        r@ == (match extension {
            Some(text) => mime_of_extension(text@),
            None => "application/octet-stream"@,
        }),
{
    let folded: String = match extension {
        Some(text) => text_of(&to_lower_text(&chars_of(text))),
        None => {
            return "application/octet-stream";
        },
    };
    let name: &str = folded.as_str();
    if same_text(name, "png") {
        "image/png"
    } else if same_text(name, "jpg") || same_text(name, "jpeg") {
        "image/jpeg"
    } else if same_text(name, "webp") {
        "image/webp"
    } else if same_text(name, "gif") {
        "image/gif"
    } else if same_text(name, "avif") {
        "image/avif"
    } else {
        "application/octet-stream"
    }
}

/// Whether a text starts with another.
pub fn starts_with(text: &Vec<char>, prefix: &Vec<char>) -> (r: bool)
    ensures
        r == begins(text@, prefix@),
{
    if text.len() < prefix.len() {
        return false;
    }
    let mut i: usize = 0;
    while i < prefix.len()
        invariant
            prefix@.len() <= text@.len(),
            i <= prefix@.len(),
            forall|j: int| 0 <= j < i ==> text@[j] == prefix@[j],
        decreases prefix.len() - i,
    {
        if text[i] != prefix[i] {
            assert(text@.take(prefix@.len() as int)[i as int] != prefix@[i as int]);
            return false;
        }
        i = i + 1;
    }
    assert(text@.take(prefix@.len() as int) =~= prefix@);
    true
}

pub open spec fn begins(text: Seq<char>, prefix: Seq<char>) -> bool {
    text.len() >= prefix.len() && text.take(prefix.len() as int) == prefix
}

/// Whether a text is white space through and through.
pub open spec fn all_blank(text: Seq<char>) -> bool {
    forall|i: int| 0 <= i < text.len() ==> blank(#[trigger] text[i])
}

/// Trimming takes nothing but white space, and only from the ends: the text is what is left, with
/// white space before it and after it. A text without white space at its ends is left whole.
pub proof fn law_trimming_takes_only_white_space(text: Seq<char>) -> (ends: (Seq<char>, Seq<char>))
    ensures
        text == ends.0 + trimmed(text) + ends.1,
        all_blank(ends.0),
        all_blank(ends.1),
        text.len() > 0 && !blank(text[0]) && !blank(text.last()) ==> trimmed(text) == text,
    decreases text.len(),
{
    if text.len() > 0 && blank(text[0]) {
        let rest = text.subrange(1, text.len() as int);
        let (before, after) = law_trimming_takes_only_white_space(rest);
        let head = seq![text[0]] + before;
        assert(text =~= seq![text[0]] + rest);
        assert(text =~= head + trimmed(text) + after);
        assert(all_blank(head)) by {
            assert forall|i: int| 0 <= i < head.len() implies blank(#[trigger] head[i]) by {
                if i > 0 {
                    assert(head[i] == before[i - 1]);
                }
            }
        }
        (head, after)
    } else if text.len() > 0 && blank(text.last()) {
        let rest = text.drop_last();
        let (before, after) = law_trimming_takes_only_white_space(rest);
        let tail = after.push(text.last());
        assert(text =~= rest.push(text.last()));
        assert(text =~= before + trimmed(text) + tail);
        assert(all_blank(tail)) by {
            assert forall|i: int| 0 <= i < tail.len() implies blank(#[trigger] tail[i]) by {
                if i < after.len() {
                    assert(tail[i] == after[i]);
                }
            }
        }
        (before, tail)
    } else {
        assert(text =~= Seq::<char>::empty() + trimmed(text) + Seq::<char>::empty());
        (Seq::empty(), Seq::empty())
    }
}

/// What is white space: the blank, the tab, the line breaks and their like; and no printing
/// character of the basic alphabet.
pub proof fn law_letters_are_not_white_space(c: char)
    ensures
        blank(' ') && blank('\t') && blank('\n') && blank('\r'),
        '!' <= c <= '~' ==> !blank(c),
{
}

/// An empty text is none, and any other is itself.
pub proof fn law_an_empty_text_is_none(text: Option<String>)
    ensures
        some_text(text) is Some <==> text is Some && text.unwrap()@.len() > 0,
        some_text(text) is Some ==> some_text(text) == text,
{
}

/// Lower case changes the capital letters of the basic alphabet, each into its own small one, and
/// nothing else; done twice it is done once.
pub proof fn law_lower_case_changes_capitals_alone(c: char)
    ensures
        'A' <= c <= 'Z' ==> lower(c) as int == c as int + 32 && 'a' <= lower(c) <= 'z',
        !('A' <= c <= 'Z') ==> lower(c) == c,
        lower(lower(c)) == lower(c),
{
}

/// Two writings of one address fold to the same form: a leading `0x`, capitals and surrounding white
/// space do not tell addresses apart; and what remains is every other character of the address, in
/// its place.
pub proof fn law_writings_of_one_address_are_one(address: Seq<char>, i: int)
    requires
        address.len() > 0,
        !blank(address[0]),
        !blank(address.last()),
        !(address.len() >= 2 && address[0] == '0' && address[1] == 'x'),
    ensures
        canonical(address).len() == address.len(),
        0 <= i < address.len() ==> canonical(address)[i] == lower(address[i]),
        canonical(seq!['0', 'x'] + address) == canonical(address),
{
    let prefixed = seq!['0', 'x'] + address;
    assert(prefixed[0] == '0');
    assert(prefixed.last() == address.last());
    assert(trimmed(address) == address);
    assert(trimmed(prefixed) == prefixed);
    assert(prefixed.subrange(2, prefixed.len() as int) =~= address);
}

/// Hexadecimal digits are the sixteen usual ones, in order and in lower case.
pub proof fn law_hex_digits_are_in_order(n: int)
    requires
        0 <= n < 16,
    ensures
        n < 10 ==> hex_digit(n) as int == '0' as int + n,
        n >= 10 ==> hex_digit(n) as int == 'a' as int + n - 10,
{
}

/// Each byte is written as its two hexadecimal digits, the higher first, in the bytes' order.
pub proof fn law_hex_writes_each_byte(bytes: Seq<u8>, i: int)
    requires
        0 <= i < bytes.len(),
    ensures
        hex(bytes).len() == 2 * bytes.len(),
        hex(bytes)[2 * i] == hex_digit(bytes[i] as int / 16),
        hex(bytes)[2 * i + 1] == hex_digit(bytes[i] as int % 16),
    decreases bytes.len(),
{
    let front = bytes.drop_last();
    lemma_hex_len(front);
    lemma_hex_len(bytes);
    if i < front.len() {
        assert(front[i] == bytes[i]);
        law_hex_writes_each_byte(front, i);
    }
}

/// The number that some decimal digits spell.
pub open spec fn number_of(digits: Seq<char>) -> int
    decreases digits.len(),
{
    if digits.len() == 0 {
        0
    } else {
        10 * number_of(digits.drop_last()) + (digits.last() as int - '0' as int)
    }
}

/// A number in decimal spells that number, with digits alone and without a leading zero.
pub proof fn law_decimal_spells_its_number(n: nat)
    ensures
        number_of(decimal(n)) == n,
        decimal(n).len() > 0,
        forall|i: int| 0 <= i < decimal(n).len() ==> '0' <= #[trigger] decimal(n)[i] <= '9',
        n > 0 ==> decimal(n)[0] != '0',
    decreases n,
{
    if n < 10 {
        assert(decimal(n).drop_last() =~= Seq::<char>::empty());
        assert(number_of(decimal(n).drop_last()) == 0);
    } else {
        law_decimal_spells_its_number(n / 10);
        assert(decimal(n).drop_last() =~= decimal(n / 10));
        assert(decimal(n)[0] == decimal(n / 10)[0]);
    }
}

/// An extension claims the image type of its own name, in whatever case it is written; any other
/// claims nothing.
pub proof fn law_an_extension_claims_its_own_type(extension: Seq<char>)
    ensures
        ({
            let folded = extension.map_values(|c: char| lower(c));
            let claimed = mime_of_extension(extension);
            &&& folded == "png"@ ==> claimed == "image/png"@
            &&& folded == "jpg"@ || folded == "jpeg"@ ==> claimed == "image/jpeg"@
            &&& folded == "webp"@ ==> claimed == "image/webp"@
            &&& folded == "gif"@ ==> claimed == "image/gif"@
            &&& folded == "avif"@ ==> claimed == "image/avif"@
            &&& folded != "png"@ && folded != "jpg"@ && folded != "jpeg"@ && folded != "webp"@
                && folded != "gif"@ && folded != "avif"@ ==> claimed
                == "application/octet-stream"@
        }),
{
    reveal_strlit("png");
    reveal_strlit("jpg");
    reveal_strlit("jpeg");
    reveal_strlit("webp");
    reveal_strlit("gif");
    reveal_strlit("avif");
    assert("png"@[0] == 'p' && "jpg"@[0] == 'j' && "jpeg"@[0] == 'j' && "webp"@[0] == 'w'
        && "gif"@[0] == 'g' && "avif"@[0] == 'a');
}

} // verus!
