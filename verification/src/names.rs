//! Identifier analyzer: segments an identifier into casing-tagged tokens and
//! re-renders them in the target naming conventions.

use vstd::prelude::*;

verus! {

// ---------------------------------------------------------------------------
// Character-level casing model (ASCII; non-ASCII letters are out of scope and
// pass through unchanged).
// ---------------------------------------------------------------------------

/// True for the ASCII uppercase letters.
pub open spec fn spec_is_upper(c: char) -> bool {
    'A' <= c && c <= 'Z'
}

/// True for the ASCII lowercase letters.
pub open spec fn spec_is_lower(c: char) -> bool {
    'a' <= c && c <= 'z'
}

/// ASCII lowercase image of a character; any other character is unchanged.
pub open spec fn lower_char(c: char) -> char {
    if spec_is_upper(c) {
        ((c as u32) + 32) as char
    } else {
        c
    }
}

/// ASCII uppercase image of a character; any other character is unchanged.
pub open spec fn upper_char(c: char) -> char {
    if spec_is_lower(c) {
        ((c as u32) - 32) as char
    } else {
        c
    }
}

pub fn is_upper(c: char) -> (r: bool)
    ensures
        r == spec_is_upper(c),
{
    'A' <= c && c <= 'Z'
}

pub fn is_lower(c: char) -> (r: bool)
    ensures
        r == spec_is_lower(c),
{
    'a' <= c && c <= 'z'
}

/// Relies on char::to_ascii_lowercase: ASCII letters 'A' to 'Z' are mapped to
/// 'a' to 'z'; any other character is returned unchanged.
#[verifier::external_body]
pub fn char_to_lower(c: char) -> (r: char)
    ensures
        r == lower_char(c),
{
    c.to_ascii_lowercase()
}

/// Relies on char::to_ascii_uppercase: ASCII letters 'a' to 'z' are mapped to
/// 'A' to 'Z'; any other character is returned unchanged.
#[verifier::external_body]
pub fn char_to_upper(c: char) -> (r: char)
    ensures
        r == upper_char(c),
{
    c.to_ascii_uppercase()
}

/// Relies on String::push: appends the given character to the end of the
/// string.
#[verifier::external_body]
pub fn push_char(s: &mut String, c: char)
    ensures
        final(s)@ == old(s)@.push(c),
{
    s.push(c)
}

// ---------------------------------------------------------------------------
// Casing-tagged tokens.
// ---------------------------------------------------------------------------

/// Mathematical model of a casing-tagged token.
pub enum SpecIdentPart {
    CapitalFirst(Seq<char>),
    AllUpperCase(Seq<char>),
    AllLowerCase(Seq<char>),
}

/// One token of a segmented identifier, tagged with its casing class.
#[derive(Clone, Debug, PartialEq)]
pub enum IdentPart {
    CapitalFirst(String),
    AllUpperCase(String),
    AllLowerCase(String),
}

impl DeepView for IdentPart {
    type V = SpecIdentPart;

    open spec fn deep_view(&self) -> SpecIdentPart {
        match self {
            IdentPart::CapitalFirst(s) => SpecIdentPart::CapitalFirst(s@),
            IdentPart::AllUpperCase(s) => SpecIdentPart::AllUpperCase(s@),
            IdentPart::AllLowerCase(s) => SpecIdentPart::AllLowerCase(s@),
        }
    }
}

/// True when some character of `s` before position `n` is an ASCII uppercase
/// letter.
pub open spec fn spec_has_upper_to(s: Seq<char>, n: int) -> bool {
    exists|i: int| 0 <= i < n && i < s.len() && spec_is_upper(#[trigger] s[i])
}

/// True when some character of the token is an ASCII uppercase letter.
pub open spec fn spec_has_upper(s: Seq<char>) -> bool {
    spec_has_upper_to(s, s.len() as int)
}

/// True when some character of `s` before position `n` is an ASCII lowercase
/// letter.
pub open spec fn spec_has_lower_to(s: Seq<char>, n: int) -> bool {
    exists|i: int| 0 <= i < n && i < s.len() && spec_is_lower(#[trigger] s[i])
}

/// True when some character of the token is an ASCII lowercase letter.
pub open spec fn spec_has_lower(s: Seq<char>) -> bool {
    spec_has_lower_to(s, s.len() as int)
}

/// Casing class of a token: uppercase letters and no lowercase ones make it
/// `AllUpperCase`; uppercase together with lowercase makes it `CapitalFirst`;
/// a token without uppercase letters is `AllLowerCase`.
pub open spec fn spec_classify(s: Seq<char>) -> SpecIdentPart {
    if spec_has_upper(s) && !spec_has_lower(s) {
        SpecIdentPart::AllUpperCase(s)
    } else if spec_has_upper(s) {
        SpecIdentPart::CapitalFirst(s)
    } else {
        SpecIdentPart::AllLowerCase(s)
    }
}

/// Tags a token with its casing class.
pub fn parse_ident_part(s: String) -> (r: IdentPart)
    ensures
        r.deep_view() == spec_classify(s@),
{
    let mut has_upper_case = false;
    let mut has_lower_case = false;

    let n = s.as_str().unicode_len();
    let mut i: usize = 0;
    while i < n
        invariant
            n == s@.len(),
            0 <= i <= n,
            has_upper_case == spec_has_upper_to(s@, i as int),
            has_lower_case == spec_has_lower_to(s@, i as int),
        decreases n - i,
    {
        let c = s.as_str().get_char(i);
        if is_upper(c) {
            has_upper_case = true;
        } else if is_lower(c) {
            has_lower_case = true;
        }
        i = i + 1;
    }

    if has_upper_case && !has_lower_case {
        IdentPart::AllUpperCase(s)
    } else if has_upper_case {
        IdentPart::CapitalFirst(s)
    } else {
        IdentPart::AllLowerCase(s)
    }
}

// ---------------------------------------------------------------------------
// Segmentation: a single left-to-right scan with one character of lookback
// splits an identifier on underscores and on casing boundaries.
// ---------------------------------------------------------------------------

/// States of the segmentation scanner.
pub enum ParsingStatus {
    WaitingNextSegment,
    FirstUpperCase,
    ReadingAllUpperCase,
    ReadingAllLowerCase,
    ReadingCapitalFirst,
}

/// Scanner configuration: current state, the token being read, and the tokens
/// already finished.
pub struct SegConfig {
    pub status: ParsingStatus,
    pub part: Seq<char>,
    pub done: Seq<Seq<char>>,
}

/// One transition of the segmentation scanner. An underscore always closes the
/// current token; a boundary falls before the last uppercase letter of an
/// uppercase run followed by a lowercase letter, and before an uppercase
/// letter that follows a lowercase or digit run.
pub open spec fn seg_step(cfg: SegConfig, c: char) -> SegConfig {
    match cfg.status {
        ParsingStatus::WaitingNextSegment => SegConfig {
            status: if spec_is_upper(c) {
                ParsingStatus::FirstUpperCase
            } else {
                ParsingStatus::ReadingAllLowerCase
            },
            part: cfg.part.push(c),
            done: cfg.done,
        },
        ParsingStatus::FirstUpperCase => {
            if c == '_' {
                SegConfig {
                    status: ParsingStatus::WaitingNextSegment,
                    part: Seq::empty(),
                    done: cfg.done.push(cfg.part),
                }
            } else if spec_is_upper(c) {
                SegConfig {
                    status: ParsingStatus::ReadingAllUpperCase,
                    part: cfg.part.push(c),
                    done: cfg.done,
                }
            } else {
                SegConfig {
                    status: ParsingStatus::ReadingCapitalFirst,
                    part: cfg.part.push(c),
                    done: cfg.done,
                }
            }
        },
        ParsingStatus::ReadingAllUpperCase => {
            if c == '_' {
                SegConfig {
                    status: ParsingStatus::WaitingNextSegment,
                    part: Seq::empty(),
                    done: cfg.done.push(cfg.part),
                }
            } else if !spec_is_lower(c) {
                SegConfig {
                    status: ParsingStatus::ReadingAllUpperCase,
                    part: cfg.part.push(c),
                    done: cfg.done,
                }
            } else {
                SegConfig {
                    status: ParsingStatus::FirstUpperCase,
                    part: seq![cfg.part.last(), c],
                    done: cfg.done.push(cfg.part.drop_last()),
                }
            }
        },
        ParsingStatus::ReadingAllLowerCase => {
            if c == '_' {
                SegConfig {
                    status: ParsingStatus::WaitingNextSegment,
                    part: Seq::empty(),
                    done: cfg.done.push(cfg.part),
                }
            } else if spec_is_upper(c) {
                SegConfig {
                    status: ParsingStatus::FirstUpperCase,
                    part: seq![c],
                    done: cfg.done.push(cfg.part),
                }
            } else {
                SegConfig {
                    status: ParsingStatus::ReadingAllLowerCase,
                    part: cfg.part.push(c),
                    done: cfg.done,
                }
            }
        },
        ParsingStatus::ReadingCapitalFirst => {
            if c == '_' {
                SegConfig {
                    status: ParsingStatus::WaitingNextSegment,
                    part: Seq::empty(),
                    done: cfg.done.push(cfg.part),
                }
            } else if spec_is_upper(c) {
                SegConfig {
                    status: ParsingStatus::FirstUpperCase,
                    part: seq![c],
                    done: cfg.done.push(cfg.part),
                }
            } else {
                SegConfig {
                    status: ParsingStatus::ReadingAllLowerCase,
                    part: cfg.part.push(c),
                    done: cfg.done,
                }
            }
        },
    }
}

/// Runs the scanner over a whole character sequence.
pub open spec fn seg_run(cs: Seq<char>, cfg: SegConfig) -> SegConfig
    decreases cs.len(),
{
    if cs.len() == 0 {
        cfg
    } else {
        seg_run(cs.drop_first(), seg_step(cfg, cs.first()))
    }
}

/// Closes the last token, if one is open.
pub open spec fn seg_finish(cfg: SegConfig) -> Seq<Seq<char>> {
    if cfg.part.len() == 0 {
        cfg.done
    } else {
        cfg.done.push(cfg.part)
    }
}

/// The scanner's starting configuration.
pub open spec fn seg_init() -> SegConfig {
    SegConfig {
        status: ParsingStatus::WaitingNextSegment,
        part: Seq::empty(),
        done: Seq::empty(),
    }
}

/// Token sequence of an identifier: the full run of the segmentation scanner.
pub open spec fn spec_segment(s: Seq<char>) -> Seq<Seq<char>> {
    seg_finish(seg_run(s, seg_init()))
}

/// Splits an identifier into its tokens, in order. Every token is a contiguous
/// piece of the input; separating underscores are dropped, and a leading
/// underscore of a piece stays with it.
pub fn segment_ident_name(ident: &str) -> (r: Vec<String>)
    ensures
        r.deep_view() == spec_segment(ident@),
{
    let n = ident.unicode_len();
    let mut segments: Vec<String> = Vec::new();
    let mut status = ParsingStatus::WaitingNextSegment;
    let mut start: usize = 0;
    let mut i: usize = 0;
    let ghost mut cfg = seg_init();

    proof {
        assert(ident@.skip(0) =~= ident@);
    }

    while i < n
        invariant
            n == ident@.len(),
            0 <= i <= n,
            seg_run(ident@, seg_init()) == seg_run(ident@.skip(i as int), cfg),
            cfg.status == status,
            cfg.done == segments.deep_view(),
            status is WaitingNextSegment ==> cfg.part == Seq::<char>::empty(),
            !(status is WaitingNextSegment) ==> start < i && cfg.part == ident@.subrange(
                start as int,
                i as int,
            ),
        decreases n - i,
    {
        let c = ident.get_char(i);
        let ghost prev = cfg;
        proof {
            assert(ident@.skip(i as int).first() == ident@[i as int]);
            assert(ident@.skip(i as int).drop_first() =~= ident@.skip(i + 1));
            cfg = seg_step(cfg, c);
        }
        match status {
            ParsingStatus::WaitingNextSegment => {
                start = i;
                if is_upper(c) {
                    status = ParsingStatus::FirstUpperCase;
                } else {
                    status = ParsingStatus::ReadingAllLowerCase;
                }
                proof {
                    assert(cfg.part =~= ident@.subrange(start as int, i + 1));
                }
            },
            ParsingStatus::FirstUpperCase => {
                if c == '_' {
                    let token = ident.substring_char(start, i).to_owned();
                    proof {
                        assert(token@ == prev.part);
                    }
                    segments.push(token);
                    status = ParsingStatus::WaitingNextSegment;
                    proof {
                        assert(segments.deep_view() =~= prev.done.push(prev.part));
                    }
                } else if is_upper(c) {
                    status = ParsingStatus::ReadingAllUpperCase;
                    proof {
                        assert(cfg.part =~= ident@.subrange(start as int, i + 1));
                    }
                } else {
                    status = ParsingStatus::ReadingCapitalFirst;
                    proof {
                        assert(cfg.part =~= ident@.subrange(start as int, i + 1));
                    }
                }
            },
            ParsingStatus::ReadingAllUpperCase => {
                if c == '_' {
                    let token = ident.substring_char(start, i).to_owned();
                    proof {
                        assert(token@ == prev.part);
                    }
                    segments.push(token);
                    status = ParsingStatus::WaitingNextSegment;
                    proof {
                        assert(segments.deep_view() =~= prev.done.push(prev.part));
                    }
                } else if !is_lower(c) {
                    proof {
                        assert(cfg.part =~= ident@.subrange(start as int, i + 1));
                    }
                } else {
                    let token = ident.substring_char(start, i - 1).to_owned();
                    proof {
                        assert(prev.part.drop_last() =~= ident@.subrange(start as int, i - 1));
                        assert(token@ == prev.part.drop_last());
                    }
                    segments.push(token);
                    status = ParsingStatus::FirstUpperCase;
                    start = i - 1;
                    proof {
                        assert(prev.part.last() == ident@[i - 1]);
                        assert(segments.deep_view() =~= prev.done.push(prev.part.drop_last()));
                        assert(cfg.part =~= ident@.subrange(start as int, i + 1));
                    }
                }
            },
            ParsingStatus::ReadingAllLowerCase => {
                if c == '_' {
                    let token = ident.substring_char(start, i).to_owned();
                    proof {
                        assert(token@ == prev.part);
                    }
                    segments.push(token);
                    status = ParsingStatus::WaitingNextSegment;
                    proof {
                        assert(segments.deep_view() =~= prev.done.push(prev.part));
                    }
                } else if is_upper(c) {
                    let token = ident.substring_char(start, i).to_owned();
                    proof {
                        assert(token@ == prev.part);
                    }
                    segments.push(token);
                    status = ParsingStatus::FirstUpperCase;
                    start = i;
                    proof {
                        assert(segments.deep_view() =~= prev.done.push(prev.part));
                        assert(cfg.part =~= ident@.subrange(start as int, i + 1));
                    }
                } else {
                    proof {
                        assert(cfg.part =~= ident@.subrange(start as int, i + 1));
                    }
                }
            },
            ParsingStatus::ReadingCapitalFirst => {
                if c == '_' {
                    let token = ident.substring_char(start, i).to_owned();
                    proof {
                        assert(token@ == prev.part);
                    }
                    segments.push(token);
                    status = ParsingStatus::WaitingNextSegment;
                    proof {
                        assert(segments.deep_view() =~= prev.done.push(prev.part));
                    }
                } else if is_upper(c) {
                    let token = ident.substring_char(start, i).to_owned();
                    proof {
                        assert(token@ == prev.part);
                    }
                    segments.push(token);
                    status = ParsingStatus::FirstUpperCase;
                    start = i;
                    proof {
                        assert(segments.deep_view() =~= prev.done.push(prev.part));
                        assert(cfg.part =~= ident@.subrange(start as int, i + 1));
                    }
                } else {
                    status = ParsingStatus::ReadingAllLowerCase;
                    proof {
                        assert(cfg.part =~= ident@.subrange(start as int, i + 1));
                    }
                }
            },
        }
        i = i + 1;
    }

    proof {
        assert(ident@.skip(n as int) =~= Seq::<char>::empty());
        assert(seg_run(ident@, seg_init()) == cfg);
    }

    match status {
        ParsingStatus::WaitingNextSegment => {},
        _ => {
            let token = ident.substring_char(start, n).to_owned();
            proof {
                assert(token@ == cfg.part);
            }
            segments.push(token);
            proof {
                assert(segments.deep_view() =~= cfg.done.push(cfg.part));
            }
        },
    }

    segments
}

/// Tokens of an identifier, each tagged with its casing class.
pub open spec fn spec_parse_name(s: Seq<char>) -> Seq<SpecIdentPart> {
    spec_segment(s).map_values(|t: Seq<char>| spec_classify(t))
}

/// Segments an identifier and tags every token with its casing class.
pub fn parse_ident_name(ident: &str) -> (r: Vec<IdentPart>)
    ensures
        r.deep_view() == spec_parse_name(ident@),
{
    let segments = segment_ident_name(ident);
    let mut parts: Vec<IdentPart> = Vec::new();
    let n = segments.len();
    let mut i: usize = 0;
    while i < n
        invariant
            n == segments@.len(),
            0 <= i <= n,
            segments.deep_view() == spec_segment(ident@),
            parts.deep_view() == spec_parse_name(ident@).take(i as int),
        decreases n - i,
    {
        let token = segments[i].clone();
        proof {
            assert(token@ == segments.deep_view()[i as int]);
            assert(spec_parse_name(ident@)[i as int] == spec_classify(token@));
        }
        let ghost prevv = parts@;
        let ghost prevdv = parts.deep_view();
        let part = parse_ident_part(token);
        parts.push(part);
        proof {
            assert(parts@ == prevv.push(part));
            assert forall|j: int| 0 <= j < prevv.len() implies #[trigger] parts.deep_view()[j]
                == prevdv[j] by {
                assert(parts@[j] == prevv[j]);
            }
            assert(parts.deep_view()[prevv.len() as int] == part.deep_view());
            assert(parts.deep_view() =~= prevdv.push(part.deep_view()));
            assert(parts.deep_view() =~= spec_parse_name(ident@).take(i + 1));
        }
        i = i + 1;
    }
    proof {
        assert(spec_parse_name(ident@).take(n as int) =~= spec_parse_name(ident@));
    }
    parts
}

// ---------------------------------------------------------------------------
// Rendering: tokens re-rendered into the target naming conventions.
// ---------------------------------------------------------------------------

/// The token text with its first character raised to uppercase.
pub open spec fn spec_upper_first(s: Seq<char>) -> Seq<char> {
    if s.len() == 0 {
        s
    } else {
        seq![upper_char(s[0])] + s.drop_first()
    }
}

/// The token text with every character lowered.
pub open spec fn spec_lower_seq(s: Seq<char>) -> Seq<char> {
    s.map_values(|c: char| lower_char(c))
}

/// Capital-first form of a token: an `AllUpperCase` token (an acronym) is kept
/// as it stands, a `CapitalFirst` token is already in that form, and an
/// `AllLowerCase` token gets its first character raised.
pub open spec fn part_capital(p: SpecIdentPart) -> Seq<char> {
    match p {
        SpecIdentPart::CapitalFirst(s) => s,
        SpecIdentPart::AllUpperCase(s) => s,
        SpecIdentPart::AllLowerCase(s) => spec_upper_first(s),
    }
}

/// All-lowercase form of a token.
pub open spec fn part_lower(p: SpecIdentPart) -> Seq<char> {
    match p {
        SpecIdentPart::CapitalFirst(s) => spec_lower_seq(s),
        SpecIdentPart::AllUpperCase(s) => spec_lower_seq(s),
        SpecIdentPart::AllLowerCase(s) => s,
    }
}

/// Raises the first character of a token to uppercase; an empty token yields
/// an empty string.
pub fn uppercase_first_letter(s: &str) -> (r: String)
    ensures
        r@ == spec_upper_first(s@),
{
    let n = s.unicode_len();
    if n == 0 {
        String::new()
    } else {
        let mut r = String::new();
        push_char(&mut r, char_to_upper(s.get_char(0)));
        r.append(s.substring_char(1, n));
        proof {
            assert(r@ =~= spec_upper_first(s@));
        }
        r
    }
}

/// Lowers every character of a string.
fn lower_str(s: &str) -> (r: String)
    ensures
        r@ == spec_lower_seq(s@),
{
    let n = s.unicode_len();
    let mut r = String::new();
    let mut i: usize = 0;
    while i < n
        invariant
            n == s@.len(),
            0 <= i <= n,
            r@ == spec_lower_seq(s@.take(i as int)),
        decreases n - i,
    {
        let c = char_to_lower(s.get_char(i));
        push_char(&mut r, c);
        proof {
            assert(spec_lower_seq(s@.take(i + 1)) =~= spec_lower_seq(s@.take(i as int)).push(
                lower_char(s@[i as int]),
            ));
        }
        i = i + 1;
    }
    proof {
        assert(s@.take(n as int) =~= s@);
    }
    r
}

impl IdentPart {
    /// Renders the token in its capital-first form.
    pub fn to_capital_first(&self) -> (r: String)
        ensures
            r@ == part_capital(self.deep_view()),
    {
        match self {
            IdentPart::CapitalFirst(s) => s.clone(),
            IdentPart::AllUpperCase(s) => s.clone(),
            IdentPart::AllLowerCase(s) => uppercase_first_letter(s.as_str()),
        }
    }

    /// Renders the token in its all-lowercase form.
    pub fn to_all_lower_case(&self) -> (r: String)
        ensures
            r@ == part_lower(self.deep_view()),
    {
        match self {
            IdentPart::CapitalFirst(s) => lower_str(s.as_str()),
            IdentPart::AllUpperCase(s) => lower_str(s.as_str()),
            IdentPart::AllLowerCase(s) => s.clone(),
        }
    }
}

/// snake_case rendering of a token sequence, from position `i` on: the
/// all-lowercase forms joined with underscores.
pub open spec fn snake_from(parts: Seq<SpecIdentPart>, i: int) -> Seq<char>
    decreases parts.len() - i,
{
    if i < 0 || i >= parts.len() {
        Seq::empty()
    } else if i == parts.len() - 1 {
        part_lower(parts[i])
    } else {
        part_lower(parts[i]) + seq!['_'] + snake_from(parts, i + 1)
    }
}

/// snake_case rendering of a token sequence.
pub open spec fn spec_snake(parts: Seq<SpecIdentPart>) -> Seq<char> {
    snake_from(parts, 0)
}

/// PascalCase rendering of a token sequence, from position `i` on: the
/// capital-first forms concatenated.
pub open spec fn pascal_from(parts: Seq<SpecIdentPart>, i: int) -> Seq<char>
    decreases parts.len() - i,
{
    if i < 0 || i >= parts.len() {
        Seq::empty()
    } else {
        part_capital(parts[i]) + pascal_from(parts, i + 1)
    }
}

/// PascalCase rendering of a token sequence.
pub open spec fn spec_pascal(parts: Seq<SpecIdentPart>) -> Seq<char> {
    pascal_from(parts, 0)
}

/// PascalCase rendering of an identifier.
pub open spec fn pascal_of(s: Seq<char>) -> Seq<char> {
    spec_pascal(spec_parse_name(s))
}

/// snake_case rendering of an identifier.
pub open spec fn snake_of(s: Seq<char>) -> Seq<char> {
    spec_snake(spec_parse_name(s))
}

/// A normalized identifier: its casing-tagged tokens, immutable once built.
#[derive(Clone, Debug, PartialEq)]
pub struct IdentName(Vec<IdentPart>);

impl DeepView for IdentName {
    type V = Seq<SpecIdentPart>;

    closed spec fn deep_view(&self) -> Seq<SpecIdentPart> {
        self.0.deep_view()
    }
}

impl IdentName {
    /// Normalizes an identifier into its casing-tagged tokens.
    pub fn from(ident: &str) -> (r: Self)
        ensures
            r.deep_view() == spec_parse_name(ident@),
    {
        IdentName(parse_ident_name(ident))
    }

    /// Renders the tokens in snake_case: all-lowercase forms joined with
    /// underscores.
    pub fn to_snake(&self) -> (r: String)
        ensures
            r@ == spec_snake(self.deep_view()),
    {
        let n = self.0.len();
        let mut r = String::new();
        let mut i: usize = 0;
        while i < n
            invariant
                n == self.0@.len(),
                0 <= i <= n,
                spec_snake(self.deep_view()) == r@ + snake_from(self.deep_view(), i as int),
            decreases n - i,
        {
            let piece = self.0[i].to_all_lower_case();
            proof {
                assert(self.0[i as int].deep_view() == self.deep_view()[i as int]);
            }
            r.append(piece.as_str());
            if i + 1 < n {
                r.append("_");
                proof {
                    reveal_strlit("_");
                    assert("_"@ =~= seq!['_']);
                    assert(spec_snake(self.deep_view()) =~= r@ + snake_from(
                        self.deep_view(),
                        i + 1,
                    ));
                }
            } else {
                proof {
                    assert(spec_snake(self.deep_view()) =~= r@ + snake_from(
                        self.deep_view(),
                        i + 1,
                    ));
                }
            }
            i = i + 1;
        }
        proof {
            assert(r@ =~= r@ + snake_from(self.deep_view(), n as int));
        }
        r
    }

    /// Renders the tokens in PascalCase: capital-first forms concatenated,
    /// acronyms kept as they stand.
    pub fn to_pascal_case(&self) -> (r: String)
        ensures
            r@ == spec_pascal(self.deep_view()),
    {
        let n = self.0.len();
        let mut r = String::new();
        let mut i: usize = 0;
        while i < n
            invariant
                n == self.0@.len(),
                0 <= i <= n,
                spec_pascal(self.deep_view()) == r@ + pascal_from(self.deep_view(), i as int),
            decreases n - i,
        {
            let piece = self.0[i].to_capital_first();
            proof {
                assert(self.0[i as int].deep_view() == self.deep_view()[i as int]);
            }
            r.append(piece.as_str());
            proof {
                assert(spec_pascal(self.deep_view()) =~= r@ + pascal_from(
                    self.deep_view(),
                    i + 1,
                ));
            }
            i = i + 1;
        }
        proof {
            assert(r@ =~= r@ + pascal_from(self.deep_view(), n as int));
        }
        r
    }

    /// Type or class name of the identifier: its PascalCase rendering.
    pub fn to_class_name(&self) -> (r: String)
        ensures
            r@ == spec_pascal(self.deep_view()),
    {
        self.to_pascal_case()
    }

    /// File name of the identifier: its snake_case rendering.
    pub fn to_file_name(&self) -> (r: String)
        ensures
            r@ == spec_snake(self.deep_view()),
    {
        self.to_snake()
    }

    /// Discriminant-entry name of the identifier: its PascalCase rendering.
    pub fn to_enum_variant_name(&self) -> (r: String)
        ensures
            r@ == spec_pascal(self.deep_view()),
    {
        self.to_pascal_case()
    }

    /// Member name of the identifier: its snake_case rendering.
    pub fn to_public_member_name(&self) -> (r: String)
        ensures
            r@ == spec_snake(self.deep_view()),
    {
        self.to_snake()
    }
}

// ---------------------------------------------------------------------------
// Segmentation is idempotent under snake_case rendering: re-segmenting the
// snake_case form of an identifier gives back the lowercased tokens, in order.
// ---------------------------------------------------------------------------

/// A token as segmentation produces it: nonempty, with an underscore at most
/// as its first character.
pub open spec fn wf_token(t: Seq<char>) -> bool {
    t.len() > 0 && forall|j: int| 1 <= j < t.len() ==> t[j] != '_'
}

/// A token without ASCII uppercase letters.
pub open spec fn upper_free(t: Seq<char>) -> bool {
    forall|j: int| 0 <= j < t.len() ==> !spec_is_upper(#[trigger] t[j])
}

/// Invariant the scanner keeps: finished tokens are well formed, an open token
/// is nonempty with an underscore at most first, and an uppercase run is at
/// least two characters long.
pub open spec fn wf_cfg(cfg: SegConfig) -> bool {
    &&& forall|k: int| 0 <= k < cfg.done.len() ==> wf_token(#[trigger] cfg.done[k])
    &&& (cfg.status is WaitingNextSegment ==> cfg.part.len() == 0)
    &&& (!(cfg.status is WaitingNextSegment) ==> cfg.part.len() > 0 && forall|j: int|
        1 <= j < cfg.part.len() ==> cfg.part[j] != '_')
    &&& (cfg.status is ReadingAllUpperCase ==> cfg.part.len() >= 2)
}

proof fn lemma_step_wf(cfg: SegConfig, c: char)
    requires
        wf_cfg(cfg),
    ensures
        wf_cfg(seg_step(cfg, c)),
{
    let next = seg_step(cfg, c);
    match cfg.status {
        ParsingStatus::ReadingAllUpperCase => {
            if c != '_' && spec_is_lower(c) {
                assert(wf_token(cfg.part.drop_last()));
            }
        },
        _ => {},
    }
    assert forall|k: int| 0 <= k < next.done.len() implies wf_token(#[trigger] next.done[k]) by {
        if k < cfg.done.len() {
            assert(wf_token(cfg.done[k]));
        }
    }
}

proof fn lemma_run_wf(cs: Seq<char>, cfg: SegConfig)
    requires
        wf_cfg(cfg),
    ensures
        wf_cfg(seg_run(cs, cfg)),
    decreases cs.len(),
{
    if cs.len() > 0 {
        lemma_step_wf(cfg, cs.first());
        lemma_run_wf(cs.drop_first(), seg_step(cfg, cs.first()));
    }
}

/// Every token that segmentation produces is well formed.
pub proof fn lemma_segment_wf(s: Seq<char>)
    ensures
        forall|k: int|
            0 <= k < spec_segment(s).len() ==> wf_token(#[trigger] spec_segment(s)[k]),
{
    lemma_run_wf(s, seg_init());
}

proof fn lemma_run_append(a: Seq<char>, b: Seq<char>, cfg: SegConfig)
    ensures
        seg_run(a + b, cfg) == seg_run(b, seg_run(a, cfg)),
    decreases a.len(),
{
    if a.len() == 0 {
        assert(a + b =~= b);
    } else {
        assert((a + b).first() == a.first());
        assert((a + b).drop_first() =~= a.drop_first() + b);
        lemma_run_append(a.drop_first(), b, seg_step(cfg, a.first()));
    }
}

proof fn lemma_run_lower_body(u: Seq<char>, part: Seq<char>, done: Seq<Seq<char>>)
    requires
        forall|j: int| 0 <= j < u.len() ==> u[j] != '_' && !spec_is_upper(#[trigger] u[j]),
    ensures
        seg_run(
            u,
            SegConfig { status: ParsingStatus::ReadingAllLowerCase, part, done },
        ) == (SegConfig { status: ParsingStatus::ReadingAllLowerCase, part: part + u, done }),
    decreases u.len(),
{
    if u.len() == 0 {
        assert(part + u =~= part);
    } else {
        let c = u.first();
        lemma_run_lower_body(u.drop_first(), part.push(c), done);
        assert(part.push(c) + u.drop_first() =~= part + u);
    }
}

proof fn lemma_run_token(t: Seq<char>, done: Seq<Seq<char>>)
    requires
        wf_token(t),
        upper_free(t),
    ensures
        seg_run(
            t,
            SegConfig { status: ParsingStatus::WaitingNextSegment, part: Seq::empty(), done },
        ) == (SegConfig { status: ParsingStatus::ReadingAllLowerCase, part: t, done }),
{
    let c = t.first();
    let cfg0 = SegConfig {
        status: ParsingStatus::WaitingNextSegment,
        part: Seq::empty(),
        done,
    };
    assert(seg_step(cfg0, c) == SegConfig {
        status: ParsingStatus::ReadingAllLowerCase,
        part: Seq::<char>::empty().push(c),
        done,
    });
    lemma_run_lower_body(t.drop_first(), Seq::<char>::empty().push(c), done);
    assert(Seq::<char>::empty().push(c) + t.drop_first() =~= t);
}

/// Lowercasing keeps a token well formed and leaves it without uppercase
/// letters.
proof fn lemma_lower_seq_wf(t: Seq<char>)
    requires
        wf_token(t),
    ensures
        wf_token(spec_lower_seq(t)),
        upper_free(spec_lower_seq(t)),
{
    let u = spec_lower_seq(t);
    assert forall|j: int| 1 <= j < u.len() implies u[j] != '_' by {
        assert(u[j] == lower_char(t[j]));
    }
    assert forall|j: int| 0 <= j < u.len() implies !spec_is_upper(#[trigger] u[j]) by {
        assert(u[j] == lower_char(t[j]));
    }
}

/// The lowercase form of a token is the all-lowercase rendering of its casing
/// class.
proof fn lemma_part_lower_classify(t: Seq<char>)
    ensures
        part_lower(spec_classify(t)) == spec_lower_seq(t),
{
    if !spec_has_upper(t) {
        assert(spec_lower_seq(t) =~= t);
    }
}

/// snake_case rendering of the classified tokens, from position `i` on, as a
/// join of the lowercased token texts.
spec fn lower_join(ts: Seq<Seq<char>>, i: int) -> Seq<char>
    decreases ts.len() - i,
{
    if i < 0 || i >= ts.len() {
        Seq::empty()
    } else if i == ts.len() - 1 {
        spec_lower_seq(ts[i])
    } else {
        spec_lower_seq(ts[i]) + seq!['_'] + lower_join(ts, i + 1)
    }
}

proof fn lemma_snake_is_lower_join(s: Seq<char>, i: int)
    requires
        0 <= i <= spec_segment(s).len(),
    ensures
        snake_from(spec_parse_name(s), i) == lower_join(spec_segment(s), i),
    decreases spec_segment(s).len() - i,
{
    let ts = spec_segment(s);
    let ps = spec_parse_name(s);
    if i < ts.len() {
        lemma_part_lower_classify(ts[i]);
        assert(ps[i] == spec_classify(ts[i]));
        if i < ts.len() - 1 {
            lemma_snake_is_lower_join(s, i + 1);
        }
    }
}

proof fn lemma_resegment_tokens(ts: Seq<Seq<char>>, i: int, done: Seq<Seq<char>>)
    requires
        0 <= i <= ts.len(),
        forall|k: int| 0 <= k < ts.len() ==> wf_token(#[trigger] ts[k]),
    ensures
        seg_finish(
            seg_run(
                lower_join(ts, i),
                SegConfig { status: ParsingStatus::WaitingNextSegment, part: Seq::empty(), done },
            ),
        ) == done + ts.map_values(|t: Seq<char>| spec_lower_seq(t)).skip(i),
    decreases ts.len() - i,
{
    let lowered = ts.map_values(|t: Seq<char>| spec_lower_seq(t));
    let cfg0 = SegConfig {
        status: ParsingStatus::WaitingNextSegment,
        part: Seq::empty(),
        done,
    };
    if i >= ts.len() {
        assert(done + lowered.skip(i) =~= done);
    } else {
        let u = spec_lower_seq(ts[i]);
        lemma_lower_seq_wf(ts[i]);
        if i == ts.len() - 1 {
            lemma_run_token(u, done);
            assert(done + lowered.skip(i) =~= done.push(u));
        } else {
            let rest = lower_join(ts, i + 1);
            assert(u + seq!['_'] + rest =~= u + (seq!['_'] + rest));
            lemma_run_append(u, seq!['_'] + rest, cfg0);
            lemma_run_token(u, done);
            let cfg1 = SegConfig {
                status: ParsingStatus::ReadingAllLowerCase,
                part: u,
                done,
            };
            lemma_run_append(seq!['_'], rest, cfg1);
            let cfg2 = SegConfig {
                status: ParsingStatus::WaitingNextSegment,
                part: Seq::<char>::empty(),
                done: done.push(u),
            };
            assert(seq!['_'].first() == '_');
            assert(seg_step(cfg1, '_') == cfg2);
            assert(seq!['_'].drop_first() =~= Seq::<char>::empty());
            assert(seg_run(seq!['_'].drop_first(), cfg2) == cfg2);
            assert(seg_run(seq!['_'], cfg1) == cfg2);
            lemma_resegment_tokens(ts, i + 1, done.push(u));
            assert(done.push(u) + lowered.skip(i + 1) =~= done + lowered.skip(i));
        }
    }
}

/// Segmentation is idempotent under rendering: re-segmenting the snake_case
/// rendering of any identifier yields exactly the lowercased texts of the
/// identifier's own tokens, in order. Word boundaries survive the snake_case
/// path; only casing information is lost.
pub proof fn lemma_snake_resegment(s: Seq<char>)
    ensures
        spec_segment(snake_of(s)) == spec_segment(s).map_values(
            |t: Seq<char>| spec_lower_seq(t),
        ),
{
    let ts = spec_segment(s);
    let lowered = ts.map_values(|t: Seq<char>| spec_lower_seq(t));
    lemma_segment_wf(s);
    lemma_snake_is_lower_join(s, 0);
    lemma_resegment_tokens(ts, 0, Seq::empty());
    assert(Seq::<Seq<char>>::empty() + lowered.skip(0) =~= lowered);
}

} // verus!
