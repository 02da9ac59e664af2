//! Name validity, case transforms and per-item-type naming conventions.
use crate::text::{
    alphanumeric, char_lower, char_upper, is_alphanumeric, is_uppercase, is_white_space, lower_of,
    lowercase, lowercase_char, push_char, same_text, uppercase, uppercase_char, white_space,
};
use vstd::prelude::*;

verus! {

/// A character allowed in a module or item name.
pub open spec fn is_name_char(c: char) -> bool {
    alphanumeric(c) || c == '-' || c == '_'
}

/// A name is non-empty and made of letters, digits, hyphens and underscores.
pub open spec fn valid_name(s: Seq<char>) -> bool {
    s.len() > 0 && forall|i: int| 0 <= i < s.len() ==> is_name_char(#[trigger] s[i])
}

/// Where kebab-case splits its input: whitespace and underscores.
pub open spec fn is_kebab_separator(c: char) -> bool {
    white_space(c) || c == '_'
}

/// The pieces of `s` between kebab separators, empty pieces included
/// (as `str::split` yields them); never an empty sequence.
pub open spec fn kebab_pieces(s: Seq<char>) -> Seq<Seq<char>>
    decreases s.len(),
{
    if s.len() == 0 {
        seq![Seq::<char>::empty()]
    } else {
        let prev = kebab_pieces(s.drop_last());
        if is_kebab_separator(s.last()) {
            prev.push(Seq::<char>::empty())
        } else {
            prev.drop_last().push(prev.last().push(s.last()))
        }
    }
}

/// Each piece lowercased, the empty results dropped.
pub open spec fn lowered_words(pieces: Seq<Seq<char>>) -> Seq<Seq<char>>
    decreases pieces.len(),
{
    if pieces.len() == 0 {
        seq![]
    } else {
        let prev = lowered_words(pieces.drop_last());
        let w = lower_of(pieces.last());
        if w.len() > 0 {
            prev.push(w)
        } else {
            prev
        }
    }
}

/// The words joined with `sep` between each two.
pub open spec fn join_with(words: Seq<Seq<char>>, sep: char) -> Seq<char>
    decreases words.len(),
{
    if words.len() == 0 {
        seq![]
    } else if words.len() == 1 {
        words[0]
    } else {
        join_with(words.drop_last(), sep).push(sep) + words.last()
    }
}

/// kebab-case: split on whitespace and underscores, lowercase each piece,
/// drop the empty ones, join with `-`. Case changes inside a piece do not split.
pub open spec fn kebab(s: Seq<char>) -> Seq<char> {
    join_with(lowered_words(kebab_pieces(s)), '-')
}

/// Where PascalCase ends a word: whitespace, hyphens and underscores.
pub open spec fn is_word_separator(c: char) -> bool {
    white_space(c) || c == '-' || c == '_'
}

/// The words of `s` completed so far, and the word in progress, after
/// reading `s` from left to right: a separator ends the current word, and an
/// uppercase character ends a non-empty current word and starts a new one.
pub open spec fn pascal_scan(s: Seq<char>) -> (Seq<Seq<char>>, Seq<char>)
    decreases s.len(),
{
    if s.len() == 0 {
        (seq![], seq![])
    } else {
        let (words, cur) = pascal_scan(s.drop_last());
        let c = s.last();
        if is_word_separator(c) {
            if cur.len() > 0 {
                (words.push(cur), seq![])
            } else {
                (words, cur)
            }
        } else if uppercase(c) && cur.len() > 0 {
            (words.push(cur), seq![c])
        } else {
            (words, cur.push(c))
        }
    }
}

/// The words that PascalCase finds in `s`; none of them is empty.
pub open spec fn pascal_words(s: Seq<char>) -> Seq<Seq<char>> {
    let (words, cur) = pascal_scan(s);
    if cur.len() > 0 {
        words.push(cur)
    } else {
        words
    }
}

/// A word with its first character uppercased and the rest lowercased.
pub open spec fn capitalized(w: Seq<char>) -> Seq<char> {
    if w.len() == 0 {
        seq![]
    } else {
        char_upper(w[0]) + lower_of(w.drop_first())
    }
}

pub open spec fn concat_capitalized(words: Seq<Seq<char>>) -> Seq<char>
    decreases words.len(),
{
    if words.len() == 0 {
        seq![]
    } else {
        concat_capitalized(words.drop_last()) + capitalized(words.last())
    }
}

/// PascalCase: each word capitalized, concatenated without separator.
pub open spec fn pascal(s: Seq<char>) -> Seq<char> {
    concat_capitalized(pascal_words(s))
}

/// `s` with only its first character lowercased.
pub open spec fn lower_first(s: Seq<char>) -> Seq<char> {
    if s.len() == 0 {
        s
    } else {
        char_lower(s[0]) + s.drop_first()
    }
}

/// camelCase: PascalCase with its first character lowercased.
pub open spec fn camel(s: Seq<char>) -> Seq<char> {
    lower_first(pascal(s))
}

pub open spec fn hooks_kind() -> Seq<char> {
    seq!['h', 'o', 'o', 'k', 's']
}

pub open spec fn services_kind() -> Seq<char> {
    seq!['s', 'e', 'r', 'v', 'i', 'c', 'e', 's']
}

pub open spec fn types_kind() -> Seq<char> {
    seq!['t', 'y', 'p', 'e', 's']
}

pub open spec fn use_prefix() -> Seq<char> {
    seq!['u', 's', 'e', '-']
}

/// `name` without a leading `use-`.
pub open spec fn without_use_prefix(name: Seq<char>) -> Seq<char> {
    if name.len() >= 4 && name.take(4) == use_prefix() {
        name.skip(4)
    } else {
        name
    }
}

/// The name substituted into an item's template: PascalCase of the raw name,
/// with `use-` stripped first for hooks, and `Service` / `Type` appended for
/// services / types. The item type is compared case-insensitively; every
/// other item type (components, containers, screens, pages, ...) takes the
/// plain PascalCase.
pub open spec fn template_name(item_type: Seq<char>, name: Seq<char>) -> Seq<char> {
    let kind = lower_of(item_type);
    if kind == hooks_kind() {
        pascal(without_use_prefix(name))
    } else if kind == services_kind() {
        pascal(name) + seq!['S', 'e', 'r', 'v', 'i', 'c', 'e']
    } else if kind == types_kind() {
        pascal(name) + seq!['T', 'y', 'p', 'e']
    } else {
        pascal(name)
    }
}

/// camelCase is PascalCase with only its first character lowercased: the
/// rest of the PascalCase text is kept as it is, and an input without words
/// gives the empty text in both cases.
pub proof fn camel_is_pascal_with_first_lowered(x: Seq<char>)
    ensures
        pascal(x).len() > 0 ==> camel(x) == char_lower(pascal(x)[0]) + pascal(x).drop_first(),
        pascal(x).len() > 0 ==> camel(x).skip(char_lower(pascal(x)[0]).len() as int)
            == pascal(x).skip(1),
        pascal(x).len() == 0 ==> camel(x).len() == 0,
{
    if pascal(x).len() > 0 {
        let first = char_lower(pascal(x)[0]);
        assert((first + pascal(x).drop_first()).skip(first.len() as int) =~= pascal(x).skip(1));
    }
}

proof fn lemma_kebab_pieces_unsplit(y: Seq<char>)
    requires
        forall|i: int| 0 <= i < y.len() ==> !is_kebab_separator(#[trigger] y[i]),
    ensures
        kebab_pieces(y) == seq![y],
    decreases y.len(),
{
    if y.len() == 0 {
        assert(y =~= Seq::<char>::empty());
    } else {
        lemma_kebab_pieces_unsplit(y.drop_last());
        assert(y.drop_last().push(y.last()) =~= y);
        assert(seq![y.drop_last()].drop_last().push(y.drop_last().push(y.last())) =~= seq![y]);
    }
}

/// kebab-case gives back its own output unchanged wherever that output holds
/// no whitespace or underscore and lowercasing leaves it as it is. (Both
/// conditions concern `str::to_lowercase` and `char::is_whitespace`, which
/// are known here only by name.)
pub proof fn kebab_idempotent_where_lowercase_is_stable(x: Seq<char>)
    requires
        forall|i: int| 0 <= i < kebab(x).len() ==> !is_kebab_separator(#[trigger] kebab(x)[i]),
        lower_of(kebab(x)) == kebab(x),
    ensures
        kebab(kebab(x)) == kebab(x),
{
    let y = kebab(x);
    lemma_kebab_pieces_unsplit(y);
    let one = seq![y];
    assert(one.drop_last() =~= Seq::<Seq<char>>::empty());
    assert(lowered_words(Seq::<Seq<char>>::empty()) == Seq::<Seq<char>>::empty());
    if y.len() > 0 {
        assert(lowered_words(one) =~= seq![y]);
    } else {
        assert(lowered_words(one) =~= Seq::<Seq<char>>::empty());
    }
}

proof fn lemma_lowered_words_push(pieces: Seq<Seq<char>>, p: Seq<char>)
    ensures
        lowered_words(pieces.push(p)) == (if lower_of(p).len() > 0 {
            lowered_words(pieces).push(lower_of(p))
        } else {
            lowered_words(pieces)
        }),
{
    assert(pieces.push(p).drop_last() =~= pieces);
}

proof fn lemma_lowered_words_nonempty(pieces: Seq<Seq<char>>)
    ensures
        forall|i: int|
            0 <= i < lowered_words(pieces).len() ==> #[trigger] lowered_words(pieces)[i].len() > 0,
    decreases pieces.len(),
{
    if pieces.len() > 0 {
        let prev = lowered_words(pieces.drop_last());
        lemma_lowered_words_nonempty(pieces.drop_last());
        let w = lower_of(pieces.last());
        if w.len() > 0 {
            assert forall|i: int| 0 <= i < prev.push(w).len() implies #[trigger] prev.push(
                w,
            )[i].len() > 0 by {
                if i < prev.len() {
                    assert(prev.push(w)[i] == prev[i]);
                }
            }
        }
    }
}

proof fn lemma_join_push(words: Seq<Seq<char>>, w: Seq<char>, sep: char)
    ensures
        join_with(words.push(w), sep) == (if words.len() == 0 {
            w
        } else {
            join_with(words, sep).push(sep) + w
        }),
{
    assert(words.push(w).drop_last() =~= words);
    if words.len() == 0 {
        assert(words.push(w)[0] == w);
    }
}

proof fn lemma_join_empty_iff(words: Seq<Seq<char>>, sep: char)
    requires
        forall|i: int| 0 <= i < words.len() ==> #[trigger] words[i].len() > 0,
    ensures
        (join_with(words, sep).len() == 0) == (words.len() == 0),
    decreases words.len(),
{
    if words.len() > 1 {
        lemma_join_empty_iff(words.drop_last(), sep);
    }
}

/// Whether `name` is a valid module or item name.
pub fn is_valid_name(name: &str) -> (r: bool)
    ensures
        r == valid_name(name@),
{
    let n = name.unicode_len();
    if n == 0 {
        return false;
    }
    let mut i: usize = 0;
    while i < n
        invariant
            n == name@.len(),
            i <= n,
            forall|j: int| 0 <= j < i ==> is_name_char(#[trigger] name@[j]),
        decreases n - i,
    {
        let c = name.get_char(i);
        if !(is_alphanumeric(c) || c == '-' || c == '_') {
            return false;
        }
        i = i + 1;
    }
    true
}

/// Appends the lowercased `piece` to `out` as one more kebab word.
fn flush_kebab_word(out: &mut String, piece: &str, Ghost(words): Ghost<Seq<Seq<char>>>)
    requires
        old(out)@ == join_with(words, '-'),
        forall|i: int| 0 <= i < words.len() ==> #[trigger] words[i].len() > 0,
    ensures
        final(out)@ == join_with(
            (if lower_of(piece@).len() > 0 {
                words.push(lower_of(piece@))
            } else {
                words
            }),
            '-',
        ),
{
    let w = lowercase(piece);
    if w.unicode_len() > 0 {
        proof {
            lemma_join_empty_iff(words, '-');
            lemma_join_push(words, w@, '-');
        }
        if out.unicode_len() > 0 {
            push_char(out, '-');
        }
        out.append(w.as_str());
    }
}

/// kebab-case of `input`; see [`kebab`].
pub fn to_kebab_case(input: &str) -> (r: String)
    ensures
        r@ == kebab(input@),
{
    let ghost s = input@;
    let n = input.unicode_len();
    let mut out = String::new();
    let mut cur = String::new();
    let ghost mut done: Seq<Seq<char>> = seq![];
    let mut i: usize = 0;
    proof {
        assert(s.take(0) =~= Seq::<char>::empty());
    }
    while i < n
        invariant
            s == input@,
            n == s.len(),
            i <= n,
            kebab_pieces(s.take(i as int)) == done.push(cur@),
            out@ == join_with(lowered_words(done), '-'),
        decreases n - i,
    {
        let c = input.get_char(i);
        proof {
            assert(s.take(i + 1).drop_last() =~= s.take(i as int));
            assert(done.push(cur@).drop_last() =~= done);
            lemma_lowered_words_nonempty(done);
            lemma_lowered_words_push(done, cur@);
        }
        if is_white_space(c) || c == '_' {
            flush_kebab_word(&mut out, cur.as_str(), Ghost(lowered_words(done)));
            proof {
                done = done.push(cur@);
            }
            cur = String::new();
        } else {
            push_char(&mut cur, c);
        }
        i = i + 1;
    }
    proof {
        assert(s.take(n as int) =~= s);
        lemma_lowered_words_nonempty(done);
        lemma_lowered_words_push(done, cur@);
    }
    flush_kebab_word(&mut out, cur.as_str(), Ghost(lowered_words(done)));
    out
}

/// The word with its first character uppercased and the rest lowercased.
pub fn capitalize_word(word: &str) -> (r: String)
    ensures
        r@ == capitalized(word@),
{
    let n = word.unicode_len();
    if n == 0 {
        return String::new();
    }
    let first = word.get_char(0);
    let rest = lowercase(word.substring_char(1, n));
    let mut out = uppercase_char(first);
    out.append(rest.as_str());
    proof {
        assert(word@.subrange(1, n as int) =~= word@.drop_first());
    }
    out
}

proof fn lemma_concat_capitalized_push(words: Seq<Seq<char>>, w: Seq<char>)
    ensures
        concat_capitalized(words.push(w)) == concat_capitalized(words) + capitalized(w),
{
    assert(words.push(w).drop_last() =~= words);
}

/// PascalCase of `input`; see [`pascal`].
pub fn to_pascal_case(input: &str) -> (r: String)
    ensures
        r@ == pascal(input@),
{
    let ghost s = input@;
    let n = input.unicode_len();
    let mut out = String::new();
    let mut cur = String::new();
    let ghost mut words: Seq<Seq<char>> = seq![];
    let mut i: usize = 0;
    proof {
        assert(s.take(0) =~= Seq::<char>::empty());
    }
    while i < n
        invariant
            s == input@,
            n == s.len(),
            i <= n,
            pascal_scan(s.take(i as int)) == (words, cur@),
            out@ == concat_capitalized(words),
        decreases n - i,
    {
        let c = input.get_char(i);
        proof {
            assert(s.take(i + 1).drop_last() =~= s.take(i as int));
            lemma_concat_capitalized_push(words, cur@);
        }
        if is_white_space(c) || c == '-' || c == '_' {
            if cur.unicode_len() > 0 {
                let w = capitalize_word(cur.as_str());
                out.append(w.as_str());
                proof {
                    words = words.push(cur@);
                }
                cur = String::new();
            }
        } else if is_uppercase(c) && cur.unicode_len() > 0 {
            let w = capitalize_word(cur.as_str());
            out.append(w.as_str());
            proof {
                words = words.push(cur@);
            }
            cur = String::new();
            push_char(&mut cur, c);
            proof {
                assert(cur@ =~= seq![c]);
            }
        } else {
            push_char(&mut cur, c);
        }
        i = i + 1;
    }
    proof {
        assert(s.take(n as int) =~= s);
        lemma_concat_capitalized_push(words, cur@);
    }
    if cur.unicode_len() > 0 {
        let w = capitalize_word(cur.as_str());
        out.append(w.as_str());
    }
    out
}

/// camelCase of `input`: its PascalCase with the first character lowercased.
pub fn to_camel_case(input: &str) -> (r: String)
    ensures
        r@ == camel(input@),
{
    let pascal_text = to_pascal_case(input);
    let n = pascal_text.unicode_len();
    if n == 0 {
        return pascal_text;
    }
    let mut out = lowercase_char(pascal_text.get_char(0));
    out.append(pascal_text.as_str().substring_char(1, n));
    proof {
        assert(pascal_text@.subrange(1, n as int) =~= pascal_text@.drop_first());
    }
    out
}

/// The name substituted into the template of an item of `item_type` named
/// `name`; see [`template_name`].
pub fn generate_template_name(item_type: &str, name: &str) -> (r: String)
    ensures
        r@ == template_name(item_type@, name@),
{
    let kind = lowercase(item_type);
    proof {
        reveal_strlit("hooks");
        reveal_strlit("services");
        reveal_strlit("types");
        reveal_strlit("use-");
        reveal_strlit("Service");
        reveal_strlit("Type");
    }
    if same_text(kind.as_str(), "hooks") {
        assert("hooks"@ =~= hooks_kind());
        let n = name.unicode_len();
        if n >= 4 && same_text(name.substring_char(0, 4), "use-") {
            assert("use-"@ =~= use_prefix());
            assert(name@.subrange(0, 4) =~= name@.take(4));
            assert(name@.subrange(4, n as int) =~= name@.skip(4));
            to_pascal_case(name.substring_char(4, n))
        } else {
            assert(n >= 4 ==> name@.subrange(0, 4) =~= name@.take(4));
            assert("use-"@ =~= use_prefix());
            to_pascal_case(name)
        }
    } else if same_text(kind.as_str(), "services") {
        assert("hooks"@ =~= hooks_kind());
        assert("services"@ =~= services_kind());
        let mut out = to_pascal_case(name);
        out.append("Service");
        assert("Service"@ =~= seq!['S', 'e', 'r', 'v', 'i', 'c', 'e']);
        out
    } else if same_text(kind.as_str(), "types") {
        assert("hooks"@ =~= hooks_kind());
        assert("services"@ =~= services_kind());
        assert("types"@ =~= types_kind());
        let mut out = to_pascal_case(name);
        out.append("Type");
        assert("Type"@ =~= seq!['T', 'y', 'p', 'e']);
        out
    } else {
        assert("hooks"@ =~= hooks_kind());
        assert("services"@ =~= services_kind());
        assert("types"@ =~= types_kind());
        to_pascal_case(name)
    }
}

} // verus!
