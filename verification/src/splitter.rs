//! Splitting of a long message into lines that fit the length limit of a
//! chat message.

use textwrap::Options;
use vstd::prelude::*;
use vstd::string::*;
use vstd::utf8::is_ascii_chars;

verus! {

/// Largest width of a line of a split message.
pub const MESSAGE_WIDTH: usize = 1950;

/// `textwrap::Options`, taken as it is.
#[verifier::external_type_specification]
#[verifier::external_body]
pub struct ExOptions<'a>(textwrap::Options<'a>);

/// `textwrap::core::Word`, with its fields.
#[verifier::external_type_specification]
pub struct ExWord<'a>(textwrap::core::Word<'a>);

/// A piece of wrappable text: the word, the white space behind it, what
/// stands behind it where it ends a line, and the width in columns that it
/// is taken to have.
pub struct Piece {
    pub word: Seq<char>,
    pub whitespace: Seq<char>,
    pub penalty: Seq<char>,
    pub width: nat,
}

/// What a word holds.
pub open spec fn piece_of(word: textwrap::core::Word) -> Piece {
    Piece {
        word: word.word@,
        whitespace: word.whitespace@,
        penalty: word.penalty@,
        width: word.width as nat,
    }
}

/// The texts of `words`, in order.
pub open spec fn pieces_of(words: Seq<textwrap::core::Word>) -> Seq<Piece> {
    Seq::new(words.len(), |i: int| piece_of(words[i]))
}

/// The texts of the words of `lines`, line by line.
pub open spec fn lines_of(lines: Seq<Vec<textwrap::core::Word>>) -> Seq<Seq<Piece>> {
    Seq::new(lines.len(), |i: int| pieces_of(lines[i]@))
}

/// The words that the word separator of `options` finds in a text.
pub uninterp spec fn separated_words(options: Options<'static>, content: Seq<char>) -> Seq<Piece>;

/// The words that the word splitter of `options` makes of a word.
pub uninterp spec fn hyphenated_word(options: Options<'static>, word: Piece) -> Seq<Piece>;

/// The lines into which the wrap algorithm of `options` lays out the given
/// words at the width of `options`.
pub uninterp spec fn wrapped_lines(options: Options<'static>, words: Seq<Piece>) -> Seq<Seq<Piece>>;

/// The words of a line after those wider than the width of `options` have
/// been broken apart.
pub uninterp spec fn broken_words(options: Options<'static>, words: Seq<Piece>) -> Seq<Piece>;

/// The width at which `options` wrap.
pub uninterp spec fn options_width(options: Options<'static>) -> usize;

/// Whether the word splitter of `options` hyphenates by the dictionary of
/// US English.
pub uninterp spec fn options_hyphenate_us_english(options: Options<'static>) -> bool;

/// Whether the wrap algorithm of `options` is the optimal fit.
pub uninterp spec fn options_fit_optimally(options: Options<'static>) -> bool;

/// How options lay a text out, as far as this library chooses it.
#[derive(Clone, Copy, Debug, PartialEq, Eq, Structural)]
pub struct Layout {
    /// The width at which lines are wrapped.
    pub width: usize,
    /// Whether words are hyphenated by the dictionary of US English.
    pub hyphenates_us_english: bool,
    /// Whether lines are laid out by optimal fit.
    pub fits_optimally: bool,
}

/// `hyphenation::Standard::from_embedded` for US English, then
/// `textwrap::Options::new` with the message width,
/// `Options::word_splitter` and `Options::wrap_algorithm`: options of that
/// width, whose word splitter is the hyphenation by that dictionary and
/// whose wrap algorithm is the optimal fit.
#[verifier::external_body]
fn splitter_options() -> (options: Options<'static>)
    ensures
        options_width(options) == MESSAGE_WIDTH,
        options_hyphenate_us_english(options),
        options_fit_optimally(options),
{
    let english = hyphenation::Load::from_embedded(hyphenation::Language::EnglishUS).unwrap();
    Options::new(MESSAGE_WIDTH)
        .word_splitter(textwrap::WordSplitter::Hyphenation(english))
        .wrap_algorithm(textwrap::WrapAlgorithm::new_optimal_fit())
}

/// The fields `width`, `word_splitter` and `wrap_algorithm` of
/// `textwrap::Options`, and `hyphenation::Standard::language`: the width,
/// whether the word splitter is the hyphenation by the dictionary of US
/// English, and whether the wrap algorithm is the optimal fit.
#[verifier::external_body]
fn options_layout(options: &Options<'static>) -> (layout: Layout)
    ensures
        layout.width == options_width(*options),
        layout.hyphenates_us_english == options_hyphenate_us_english(*options),
        layout.fits_optimally == options_fit_optimally(*options),
{
    Layout {
        width: options.width,
        hyphenates_us_english: match &options.word_splitter {
            textwrap::WordSplitter::Hyphenation(dictionary) => dictionary.language()
                == hyphenation::Language::EnglishUS,
            _ => false,
        },
        fits_optimally: matches!(options.wrap_algorithm, textwrap::WrapAlgorithm::OptimalFit(_)),
    }
}

/// `WordSeparator::find_words` of the options' word separator: the words
/// of `content`, in order.
#[verifier::external_body]
fn find_words<'a>(options: &Options<'static>, content: &'a str) -> (words: Vec<
    textwrap::core::Word<'a>,
>)
    ensures
        pieces_of(words@) == separated_words(*options, content@),
{
    options.word_separator.find_words(content).collect()
}

/// Whether `c` is an upper-case character, as `char::is_uppercase` tells
/// it.
pub uninterp spec fn uppercase(c: char) -> bool;

/// `char::is_uppercase`: whether the character has the Unicode property
/// Uppercase.
pub assume_specification[ char::is_uppercase ](c: char) -> (upper: bool)
    ensures
        upper == uppercase(c),
;

/// Whether a word can be handed to the hyphenator.
///
/// The hyphenator looks for breaks in the lower-cased word and reports them
/// as byte offsets, at which the word itself is then cut. A word without an
/// upper-case character is not lower-cased at all, and in a word of ASCII
/// characters every offset is a place between two characters, before and
/// after lower-casing. In any other word lower-casing can move the places
/// between the characters, so that a cut can fall inside a character: such
/// a word is not handed over.
pub open spec fn hyphenable(word: Seq<char>) -> bool {
    is_ascii_chars(word) || forall|i: int| 0 <= i < word.len() ==> !uppercase(#[trigger] word[i])
}

/// `textwrap::word_splitters::split_words` with the options' word
/// splitter, on one word: the word, split at the points where it may be
/// hyphenated. The call can panic on a word that has an upper-case
/// character and a character outside ASCII, which the precondition leaves
/// out.
#[verifier::external_body]
fn split_word<'a>(options: &'a Options<'static>, word: textwrap::core::Word<'a>) -> (split: Vec<
    textwrap::core::Word<'a>,
>)
    requires
        hyphenable(word.word@),
    ensures
        pieces_of(split@) == hyphenated_word(*options, piece_of(word)),
{
    textwrap::word_splitters::split_words(std::iter::once(word), &options.word_splitter).collect()
}

/// `WrapAlgorithm::wrap` of the options' wrap algorithm at the options'
/// width: the given words, line by line.
#[verifier::external_body]
fn wrap_words<'a>(options: &Options<'static>, words: &Vec<textwrap::core::Word<'a>>) -> (lines:
    Vec<Vec<textwrap::core::Word<'a>>>)
    ensures
        lines_of(lines@) == wrapped_lines(*options, pieces_of(words@)),
{
    let line_widths = [options.width];
    options.wrap_algorithm.wrap(words, &line_widths).into_iter().map(|line| line.to_vec()).collect()
}

/// `textwrap::core::break_words` at the options' width: the given words,
/// with those that are wider than a line broken apart.
#[verifier::external_body]
fn break_words<'a>(options: &Options<'static>, words: &Vec<textwrap::core::Word<'a>>) -> (broken:
    Vec<textwrap::core::Word<'a>>)
    ensures
        pieces_of(broken@) == broken_words(*options, pieces_of(words@)),
{
    textwrap::core::break_words(words.iter().copied(), options.width)
}

/// What stands behind the word with number `index` of a line of `count`
/// words, where `before` is the line up to and with that word: the white
/// space where another word follows or the white space is a line break,
/// unless the line is still empty; else what ends a line.
pub open spec fn separator(piece: Piece, index: int, count: int, before: Seq<char>) -> Seq<char> {
    if (index + 1 < count || piece.whitespace == "\n"@) && before.len() > 0 {
        piece.whitespace
    } else {
        piece.penalty
    }
}

/// The text of the first `count` words of a line.
pub open spec fn assembled(pieces: Seq<Piece>, count: nat) -> Seq<char>
    decreases count,
{
    if count == 0 || count > pieces.len() {
        Seq::empty()
    } else {
        let index = count - 1;
        let before = assembled(pieces, index as nat) + pieces[index].word;
        before + separator(pieces[index], index, pieces.len() as int, before)
    }
}

/// The words that hyphenation makes of `words`: every word that can be
/// handed to the hyphenator is split where it may be hyphenated, every
/// other word is left whole.
pub open spec fn hyphenated_words(options: Options<'static>, words: Seq<Piece>) -> Seq<Piece>
    decreases words.len(),
{
    if words.len() == 0 {
        Seq::empty()
    } else {
        hyphenated_words(options, words.drop_last()) + if hyphenable(words.last().word) {
            hyphenated_word(options, words.last())
        } else {
            seq![words.last()]
        }
    }
}

/// The lines of a message split with `options`.
pub open spec fn split_lines(options: Options<'static>, content: Seq<char>) -> Seq<Seq<char>> {
    let lines = wrapped_lines(options, hyphenated_words(options, separated_words(options, content)));
    Seq::new(
        lines.len(),
        |i: int|
            {
                let pieces = broken_words(options, lines[i]);
                assembled(pieces, pieces.len())
            },
    )
}

/// Splits messages into lines that fit a chat message.
pub struct MessageSplitter {
    options: Options<'static>,
}

impl MessageSplitter {
    /// The options that the splitter works with.
    pub closed spec fn options(&self) -> Options<'static> {
        self.options
    }

    /// A splitter that hyphenates US English and wraps by optimal fit at
    /// the message width.
    pub fn new() -> (splitter: Self)
        ensures
            options_width(splitter.options()) == MESSAGE_WIDTH,
            options_hyphenate_us_english(splitter.options()),
            options_fit_optimally(splitter.options()),
    {
        Self { options: splitter_options() }
    }

    /// How this splitter lays a text out.
    pub fn layout(&self) -> (layout: Layout)
        ensures
            layout.width == options_width(self.options()),
            layout.hyphenates_us_english == options_hyphenate_us_english(self.options()),
            layout.fits_optimally == options_fit_optimally(self.options()),
    {
        options_layout(&self.options)
    }

    /// Splits `content` into lines: its words are found, those that can be
    /// handed to the hyphenator are split where they may be hyphenated, and
    /// all are laid out in lines; in each line the words that are still too
    /// wide are broken apart, and the words are put together again with
    /// what stands between them.
    pub fn split(&self, content: &str) -> (lines: Vec<String>)
        ensures
            lines@.len() == split_lines(self.options(), content@).len(),
            forall|i: int|
                0 <= i < lines@.len() ==> (#[trigger] lines@[i])@ == split_lines(
                    self.options(),
                    content@,
                )[i],
    {
        let words = find_words(&self.options, content);
        let split = hyphenate(&self.options, &words);
        let wrapped = wrap_words(&self.options, &split);
        let ghost expected = split_lines(self.options(), content@);
        let mut lines: Vec<String> = Vec::new();
        let mut index: usize = 0;
        while index < wrapped.len()
            invariant
                index <= wrapped@.len(),
                expected == split_lines(self.options(), content@),
                lines_of(wrapped@) == wrapped_lines(
                    self.options(),
                    hyphenated_words(self.options(), separated_words(self.options(), content@)),
                ),
                expected.len() == wrapped@.len(),
                lines@.len() == index,
                forall|i: int| 0 <= i < index ==> (#[trigger] lines@[i])@ == expected[i],
            decreases wrapped@.len() - index,
        {
            let broken = break_words(&self.options, &wrapped[index]);
            assert(lines_of(wrapped@)[index as int] == pieces_of(wrapped@[index as int]@));
            let line = assemble(&broken);
            lines.push(line);
            index += 1;
        }
        lines
    }
}

/// Whether `word` can be handed to the hyphenator: it consists of ASCII
/// characters alone, or it has no upper-case character.
pub fn is_hyphenable(word: &str) -> (safe: bool)
    ensures
        safe == hyphenable(word@),
{
    if word.is_ascii() {
        return true;
    }
    let len: usize = word.unicode_len();
    let mut index: usize = 0;
    while index < len
        invariant
            len == word@.len(),
            index <= len,
            !is_ascii_chars(word@),
            forall|i: int| 0 <= i < index ==> !uppercase(#[trigger] word@[i]),
        decreases len - index,
    {
        if word.get_char(index).is_uppercase() {
            return false;
        }
        index += 1;
    }
    true
}

/// Splits every word of `words` that can be handed to the hyphenator where
/// it may be hyphenated, and leaves every other word whole: a word with an
/// upper-case character and a character outside ASCII is not hyphenated.
pub fn hyphenate<'a>(options: &'a Options<'static>, words: &Vec<textwrap::core::Word<'a>>) -> (split:
    Vec<textwrap::core::Word<'a>>)
    ensures
        pieces_of(split@) == hyphenated_words(*options, pieces_of(words@)),
{
    let mut split: Vec<textwrap::core::Word<'a>> = Vec::new();
    let mut index: usize = 0;
    assert(pieces_of(split@) =~= Seq::<Piece>::empty());
    assert(pieces_of(words@).take(0) =~= Seq::<Piece>::empty());
    while index < words.len()
        invariant
            index <= words@.len(),
            pieces_of(split@) == hyphenated_words(*options, pieces_of(words@).take(index as int)),
        decreases words@.len() - index,
    {
        let word: textwrap::core::Word<'a> = words[index];
        let ghost before = split@;
        let ghost next = pieces_of(words@).take(index + 1);
        proof {
            assert(next.drop_last() =~= pieces_of(words@).take(index as int));
            assert(next.last() == piece_of(word));
        }
        if is_hyphenable(word.word) {
            let mut parts = split_word(options, word);
            let ghost added = parts@;
            split.append(&mut parts);
            assert(pieces_of(split@) =~= pieces_of(before) + pieces_of(added));
        } else {
            split.push(word);
            assert(pieces_of(split@) =~= pieces_of(before) + seq![piece_of(word)]);
        }
        index += 1;
    }
    assert(pieces_of(words@).take(index as int) =~= pieces_of(words@));
    split
}

/// Puts the words of a line together with what stands between them.
pub fn assemble(words: &Vec<textwrap::core::Word>) -> (line: String)
    ensures
        line@ == assembled(pieces_of(words@), words@.len()),
{
    let mut line = String::new();
    let mut index: usize = 0;
    while index < words.len()
        invariant
            index <= words@.len(),
            line@ == assembled(pieces_of(words@), index as nat),
        decreases words@.len() - index,
    {
        let word = &words[index];
        assert(pieces_of(words@)[index as int] == piece_of(*word));
        line.append(word.word);
        let follows: bool = index + 1 < words.len() || *word.whitespace == *"\n";
        if follows && line.as_str().unicode_len() > 0 {
            line.append(word.whitespace);
        } else {
            line.append(word.penalty);
        }
        index += 1;
    }
    line
}

} // verus!
