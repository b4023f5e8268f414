//! Repairs patterns whose capture groups carry names that the dialect refuses,
//! such as `(?P<0>..)`, by prefixing the offending names.

use regex_syntax::ast::parse::Parser;
use regex_syntax::ast::ErrorKind;
use vstd::prelude::*;
use vstd::string::*;
use vstd::utf8::*;

verus! {

/// The class of a parse failure, as far as the repair needs to tell them apart.
#[derive(Clone, Copy, Debug, PartialEq, Eq, Structural)]
pub enum PatternErrorKind {
    /// A capture group's name holds a character that is not allowed there.
    GroupNameInvalid,
    /// Any other defect of the pattern.
    Other,
}

/// Why the dialect's parser refused a pattern.
#[derive(Debug, PartialEq, Eq)]
pub struct PatternError {
    /// The class of the failure.
    pub kind: PatternErrorKind,
    /// Byte offset in the pattern at which the offending text starts.
    pub start: usize,
    /// The parser's own rendering of the failure.
    pub message: String,
}

/// The mathematical content of a [`PatternError`].
pub struct PatternErrorView {
    pub kind: PatternErrorKind,
    pub start: int,
    pub message: Seq<char>,
}

impl View for PatternError {
    type V = PatternErrorView;

    open spec fn view(&self) -> PatternErrorView {
        PatternErrorView { kind: self.kind, start: self.start as int, message: self.message@ }
    }
}

/// What the dialect's parser, in its default configuration, finds wrong with a
/// pattern: `None` where it accepts the pattern.
pub uninterp spec fn parse_failure(pattern: Seq<char>) -> Option<PatternErrorView>;

/// Calls `regex_syntax::ast::parse::Parser::parse` on a parser made by
/// `Parser::new`. The outcome is a function of the pattern alone and is known to
/// the proofs only by the name [`parse_failure`]: acceptance is `None`, and a
/// refusal carries whether its kind is `ErrorKind::GroupNameInvalid`, the start
/// offset of the error's span and the error's `Display` text.
#[verifier::external_body]
fn parse_pattern(pattern: &str) -> (r: Result<(), PatternError>)
    ensures
        r is Ok <==> parse_failure(pattern@) is None,
        r matches Err(e) ==> parse_failure(pattern@) == Some(e@),
{
    match Parser::new().parse(pattern) {
        Ok(_) => Ok(()),
        Err(e) => Err(PatternError {
            kind: match e.kind() {
                ErrorKind::GroupNameInvalid => PatternErrorKind::GroupNameInvalid,
                _ => PatternErrorKind::Other,
            },
            start: e.span().start.offset,
            message: e.to_string(),
        }),
    }
}

/// The characters put in front of a refused group name.
pub open spec fn prefix() -> Seq<char> {
    seq!['_', '_']
}

/// The pattern with the prefix inserted at a byte offset of its UTF-8 encoding.
pub open spec fn with_prefix_at(pattern: Seq<char>, offset: int) -> Seq<char> {
    let bytes = encode_utf8(pattern);
    decode_utf8(bytes.subrange(0, offset)) + prefix() + decode_utf8(
        bytes.subrange(offset, bytes.len() as int),
    )
}

/// Whether a failure is one that prefixing repairs: an invalid group name that
/// starts on a character boundary, closer to the end of the pattern than `limit`.
pub open spec fn repairable(pattern: Seq<char>, failure: PatternErrorView, limit: int) -> bool {
    let bytes = encode_utf8(pattern);
    &&& failure.kind == PatternErrorKind::GroupNameInvalid
    &&& is_char_boundary(bytes, failure.start)
    &&& 0 <= bytes.len() - failure.start < limit
}

/// Where the repair of a pattern ends.
pub struct Normalization {
    /// The pattern after the last repair.
    pub pattern: Seq<char>,
    /// How many group names were prefixed.
    pub renamed: nat,
    /// What the parser still refuses in `pattern`, if anything.
    pub failure: Option<PatternErrorView>,
}

/// Parses, prefixes the refused group name and parses again, for as long as each
/// refused name lies closer to the end of the pattern than the one before
/// (`limit` bounds the first).
pub open spec fn repair(pattern: Seq<char>, limit: int) -> Normalization
    decreases limit,
{
    match parse_failure(pattern) {
        None => Normalization { pattern, renamed: 0, failure: None },
        Some(failure) => if repairable(pattern, failure, limit) {
            let rest = repair(
                with_prefix_at(pattern, failure.start),
                encode_utf8(pattern).len() - failure.start,
            );
            Normalization { renamed: rest.renamed + 1, ..rest }
        } else {
            Normalization { pattern, renamed: 0, failure: Some(failure) }
        },
    }
}

/// The repair of a pattern from scratch: any first offset is admitted.
pub open spec fn normalized(pattern: Seq<char>) -> Normalization {
    repair(pattern, encode_utf8(pattern).len() as int + 1)
}

/// The pattern without its underscores: what no repair changes.
pub open spec fn without_underscores(pattern: Seq<char>) -> Seq<char> {
    pattern.filter(not_underscore())
}

/// The test that keeps every character but the underscore.
pub open spec fn not_underscore() -> spec_fn(char) -> bool {
    |c: char| c != '_'
}

/// Encoding distributes over concatenation.
proof fn lemma_encode_concat(a: Seq<char>, b: Seq<char>)
    ensures
        encode_utf8(a + b) == encode_utf8(a) + encode_utf8(b),
    decreases a.len(),
{
    if a.len() == 0 {
        assert(a + b =~= b);
        assert(encode_utf8(a) + encode_utf8(b) =~= encode_utf8(b));
    } else {
        assert((a + b).drop_first() =~= a.drop_first() + b);
        lemma_encode_concat(a.drop_first(), b);
        assert(encode_utf8(a + b) =~= encode_utf8(a) + encode_utf8(b));
    }
}

/// The prefix takes two bytes.
proof fn lemma_prefix_bytes()
    ensures
        encode_utf8(prefix()).len() == 2,
{
    broadcast use group_utf8_lib;

    assert(is_ascii_chars(prefix()));
}

/// One repair step splits the pattern in two and puts the prefix in between:
/// nothing else moves, and the pattern grows by the two bytes of the prefix.
pub proof fn lemma_with_prefix_at(pattern: Seq<char>, offset: int)
    requires
        is_char_boundary(encode_utf8(pattern), offset),
    ensures
        ({
            let bytes = encode_utf8(pattern);
            let head = decode_utf8(bytes.subrange(0, offset));
            let tail = decode_utf8(bytes.subrange(offset, bytes.len() as int));
            &&& pattern == head + tail
            &&& with_prefix_at(pattern, offset) == head + prefix() + tail
            &&& encode_utf8(head).len() == offset
        }),
        with_prefix_at(pattern, offset).len() == pattern.len() + 2,
        encode_utf8(with_prefix_at(pattern, offset)).len() == encode_utf8(pattern).len() + 2,
        without_underscores(with_prefix_at(pattern, offset)) == without_underscores(pattern),
{
    broadcast use group_utf8_lib;

    let bytes = encode_utf8(pattern);
    let first = bytes.subrange(0, offset);
    let second = bytes.subrange(offset, bytes.len() as int);
    let head = decode_utf8(first);
    let tail = decode_utf8(second);
    assert(0 <= offset <= bytes.len()) by {
        reveal_with_fuel(is_char_boundary, 2);
    }
    assert(valid_utf8(first) && valid_utf8(second));
    assert(decode_utf8(bytes) == pattern);
    assert(pattern =~= head + tail);
    assert(encode_utf8(head) == first);
    assert(encode_utf8(tail) == second);
    lemma_encode_concat(head, prefix());
    lemma_encode_concat(head + prefix(), tail);
    lemma_prefix_bytes();
    let keep = not_underscore();
    assert(without_underscores(head + prefix() + tail) == without_underscores(head + tail)) by {
        Seq::filter_distributes_over_add(head, prefix(), keep);
        Seq::filter_distributes_over_add(head + prefix(), tail, keep);
        Seq::filter_distributes_over_add(head, tail, keep);
        lemma_prefix_filtered();
        assert(head.filter(keep) + Seq::<char>::empty() =~= head.filter(keep));
    }
}

/// Nothing of the prefix is left once underscores are taken out.
proof fn lemma_prefix_filtered()
    ensures
        prefix().filter(not_underscore()) == Seq::<char>::empty(),
{
    reveal_with_fuel(Seq::filter, 3);
    assert(prefix().drop_last() =~= seq!['_']);
    assert(seq!['_'].drop_last() =~= Seq::<char>::empty());
}

/// A pattern that the parser accepts is left as it is, without any repair.
pub proof fn lemma_valid_pattern_unchanged(pattern: Seq<char>)
    requires
        parse_failure(pattern) is None,
    ensures
        normalized(pattern) == (Normalization { pattern, renamed: 0, failure: None }),
{
}

/// A repair that ends without a failure ends in a pattern that the parser
/// accepts; one that ends with a failure ends in a pattern with that failure.
pub proof fn lemma_repair_ends_where_parsing_ends(pattern: Seq<char>, limit: int)
    ensures
        repair(pattern, limit).failure == parse_failure(repair(pattern, limit).pattern),
    decreases limit,
{
    match parse_failure(pattern) {
        None => {},
        Some(failure) => {
            if repairable(pattern, failure, limit) {
                lemma_repair_ends_where_parsing_ends(
                    with_prefix_at(pattern, failure.start),
                    encode_utf8(pattern).len() - failure.start,
                );
            }
        },
    }
}

/// Normalizing twice is normalizing once: the outcome of a successful repair
/// is a pattern that a second repair leaves unchanged.
pub proof fn lemma_normalization_idempotent(pattern: Seq<char>)
    requires
        normalized(pattern).failure is None,
    ensures
        normalized(normalized(pattern).pattern) == (Normalization {
            pattern: normalized(pattern).pattern,
            renamed: 0,
            failure: None,
        }),
{
    lemma_repair_ends_where_parsing_ends(pattern, encode_utf8(pattern).len() as int + 1);
}

/// A repair only ever inserts prefixes: the pattern grows by two characters
/// (and two bytes) for each renamed group, and every character other than an
/// underscore stays, in its order. So no group appears, vanishes or moves.
pub proof fn lemma_repair_inserts_only_prefixes(pattern: Seq<char>, limit: int)
    ensures
        repair(pattern, limit).pattern.len() == pattern.len() + 2 * repair(pattern, limit).renamed,
        encode_utf8(repair(pattern, limit).pattern).len() == encode_utf8(pattern).len() + 2
            * repair(pattern, limit).renamed,
        without_underscores(repair(pattern, limit).pattern) == without_underscores(pattern),
    decreases limit,
{
    match parse_failure(pattern) {
        None => {},
        Some(failure) => {
            if repairable(pattern, failure, limit) {
                lemma_with_prefix_at(pattern, failure.start);
                lemma_repair_inserts_only_prefixes(
                    with_prefix_at(pattern, failure.start),
                    encode_utf8(pattern).len() - failure.start,
                );
            }
        },
    }
}

/// The number of repairs is bounded by the limit, so the number of parse
/// attempts, which is one more than the number of renamed groups, is bounded too.
pub proof fn lemma_repair_bounded(pattern: Seq<char>, limit: int)
    ensures
        repair(pattern, limit).renamed <= if limit < 0 { 0 } else { limit },
    decreases limit,
{
    match parse_failure(pattern) {
        None => {},
        Some(failure) => {
            if repairable(pattern, failure, limit) {
                lemma_repair_bounded(
                    with_prefix_at(pattern, failure.start),
                    encode_utf8(pattern).len() - failure.start,
                );
            }
        },
    }
}

/// What is still to come of a repair that has renamed `done` groups so far.
pub open spec fn resumed(rest: Normalization, done: nat) -> Normalization {
    Normalization { renamed: rest.renamed + done, ..rest }
}

/// The limit that a loop state stands for.
pub open spec fn limit_of(bound: Option<usize>, pattern: Seq<char>) -> int {
    match bound {
        Some(b) => b as int,
        None => encode_utf8(pattern).len() as int + 1,
    }
}

/// What a repair hands back: the number of renamed groups, and the failure
/// that stopped it, if one did.
#[derive(Debug, PartialEq, Eq)]
pub struct Repaired {
    /// How many times the parser ran.
    pub attempts: usize,
    /// How many group names were prefixed.
    pub renamed: usize,
    /// What the parser still refuses, if anything.
    pub failure: Option<PatternError>,
}

impl Repaired {
    /// Whether this is the outcome that the model gives.
    pub open spec fn agrees_with(&self, model: Normalization) -> bool {
        &&& self.renamed == model.renamed
        &&& match self.failure {
            None => model.failure is None,
            Some(e) => model.failure == Some(e@),
        }
    }
}

/// Prefixes the names of the capture groups that the parser refuses as invalid
/// with `__`, one at a time from the left, until the pattern parses or fails for
/// another reason. A group name that is still refused where the last repair was
/// made ends the repair too, with that failure.
///
/// Each round parses once and all but the last rename one group, so a pattern
/// with `k` such names is parsed `k + 1` times. Nothing but prefixes is put in:
/// every character other than an underscore stays where it is.
pub fn repair_group_names(regex: &mut String) -> (out: Repaired)
    ensures
        final(regex)@ == normalized(old(regex)@).pattern,
        out.agrees_with(normalized(old(regex)@)),
        out.attempts == out.renamed + 1,
        final(regex)@.len() == old(regex)@.len() + 2 * out.renamed,
        without_underscores(final(regex)@) == without_underscores(old(regex)@),
{
    let ghost start = regex@;
    let mut renamed: usize = 0;
    let mut bound: Option<usize> = None;
    loop
        invariant
            start == old(regex)@,
            encode_utf8(regex@).len() == encode_utf8(start).len() + 2 * renamed,
            normalized(start) == resumed(repair(regex@, limit_of(bound, regex@)), renamed as nat),
        decreases limit_of(bound, regex@),
    {
        let len = regex.as_str().as_bytes().len();
        proof {
            lemma_repair_inserts_only_prefixes(start, encode_utf8(start).len() as int + 1);
        }
        match parse_pattern(regex.as_str()) {
            Ok(()) => {
                return Repaired { attempts: renamed + 1, renamed, failure: None };
            },
            Err(e) => {
                let named = match e.kind {
                    PatternErrorKind::GroupNameInvalid => true,
                    PatternErrorKind::Other => false,
                };
                let on_boundary = regex.as_str().is_char_boundary(e.start);
                let closer = e.start <= len && match bound {
                    Some(b) => len - e.start < b,
                    None => true,
                };
                if named && on_boundary && closer {
                    proof {
                        lemma_with_prefix_at(regex@, e.start as int);
                    }
                    insert_prefix(regex, e.start);
                    bound = Some(len - e.start);
                    renamed = renamed + 1;
                } else {
                    return Repaired { attempts: renamed + 1, renamed, failure: Some(e) };
                }
            },
        }
    }
}

/// Prefixes the names of explicitly numbered capture groups, such as `(?P<0>..)`,
/// with `__`, which makes them valid. A pattern that parses is left unchanged;
/// any failure other than an invalid group name is handed back at once.
pub fn replace_numbered_capture_groups(regex: &mut String) -> (r: Result<(), PatternError>)
    ensures
        final(regex)@ == normalized(old(regex)@).pattern,
        match r {
            Ok(_) => normalized(old(regex)@).failure is None,
            Err(e) => normalized(old(regex)@).failure == Some(e@),
        },
        r is Ok ==> parse_failure(final(regex)@) is None,
        parse_failure(old(regex)@) is None ==> r is Ok && final(regex)@ == old(regex)@,
        without_underscores(final(regex)@) == without_underscores(old(regex)@),
{
    proof {
        lemma_repair_ends_where_parsing_ends(regex@, encode_utf8(regex@).len() as int + 1);
    }
    match repair_group_names(regex).failure {
        None => Ok(()),
        Some(e) => Err(e),
    }
}

/// Inserts the prefix at a byte offset that lies on a character boundary.
fn insert_prefix(regex: &mut String, offset: usize)
    requires
        is_char_boundary(encode_utf8(old(regex)@), offset as int),
    ensures
        final(regex)@ == with_prefix_at(old(regex)@, offset as int),
{
    broadcast use group_utf8_lib;

    let (head, tail) = regex.as_str().split_at(offset);
    let mut out = String::from_str(head);
    out.append("__");
    out.append(tail);
    proof {
        reveal_strlit("__");
        assert("__"@ =~= prefix());
        assert(head@ == decode_utf8(encode_utf8(head@)));
        assert(tail@ == decode_utf8(encode_utf8(tail@)));
    }
    *regex = out;
}

} // verus!
