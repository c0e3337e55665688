//! A format-string mini-language for rendering a `Track` as text: literal
//! characters, `%field%` placeholders, and `[...]` optional groups that
//! vanish when every field inside them is absent. Parsing, printing and
//! rendering are pure.
use vstd::prelude::*;

use crate::text::decimal;
use crate::text::decimal2;
use crate::text::push_char;
use crate::text::push_decimal;
use crate::text::push_decimal2;
use crate::text::push_str;
use crate::text::same_text;
use crate::track::Track;

verus! {

broadcast use vstd::string::group_string_axioms;

/// A `Track` field a format string can reference via `%field%`.
#[derive(Debug, Clone, Copy, PartialEq, Eq, Structural, Hash)]
pub enum TrackField {
    Title,
    Artist,
    AlbumArtist,
    Album,
    Genre,
    Composer,
    TrackNumber,
    DiscNumber,
    Year,
    Duration,
}

/// Every field, in the canonical order the column picker lists them.
pub open spec fn all_fields() -> Seq<TrackField> {
    seq![
        TrackField::Title,
        TrackField::Artist,
        TrackField::AlbumArtist,
        TrackField::Album,
        TrackField::Genre,
        TrackField::Composer,
        TrackField::TrackNumber,
        TrackField::DiscNumber,
        TrackField::Year,
        TrackField::Duration,
    ]
}

/// The label of `f` in the column picker and column headers.
pub open spec fn field_label(f: TrackField) -> Seq<char> {
    match f {
        TrackField::Title => "Title"@,
        TrackField::Artist => "Artist"@,
        TrackField::AlbumArtist => "Album Artist"@,
        TrackField::Album => "Album"@,
        TrackField::Genre => "Genre"@,
        TrackField::Composer => "Composer"@,
        TrackField::TrackNumber => "Track #"@,
        TrackField::DiscNumber => "Disc #"@,
        TrackField::Year => "Year"@,
        TrackField::Duration => "Duration"@,
    }
}

/// The name of `f` inside `%...%`, also its settings key.
pub open spec fn field_key(f: TrackField) -> Seq<char> {
    match f {
        TrackField::Title => "title"@,
        TrackField::Artist => "artist"@,
        TrackField::AlbumArtist => "album_artist"@,
        TrackField::Album => "album"@,
        TrackField::Genre => "genre"@,
        TrackField::Composer => "composer"@,
        TrackField::TrackNumber => "track"@,
        TrackField::DiscNumber => "disc"@,
        TrackField::Year => "year"@,
        TrackField::Duration => "duration"@,
    }
}

/// The field whose key is `key`, if any.
pub open spec fn field_of_key(key: Seq<char>) -> Option<TrackField> {
    if key == "title"@ {
        Some(TrackField::Title)
    } else if key == "artist"@ {
        Some(TrackField::Artist)
    } else if key == "album_artist"@ {
        Some(TrackField::AlbumArtist)
    } else if key == "album"@ {
        Some(TrackField::Album)
    } else if key == "genre"@ {
        Some(TrackField::Genre)
    } else if key == "composer"@ {
        Some(TrackField::Composer)
    } else if key == "track"@ {
        Some(TrackField::TrackNumber)
    } else if key == "disc"@ {
        Some(TrackField::DiscNumber)
    } else if key == "year"@ {
        Some(TrackField::Year)
    } else if key == "duration"@ {
        Some(TrackField::Duration)
    } else {
        None
    }
}

/// Whether `track` has no value for `f`. A duration is never absent: zero is
/// a known length, not an unset tag.
pub open spec fn field_absent(f: TrackField, track: Track) -> bool {
    match f {
        TrackField::Title => track.title@.len() == 0,
        TrackField::Artist => track.artist@.len() == 0,
        TrackField::AlbumArtist => track.album_artist@.len() == 0,
        TrackField::Album => track.album@.len() == 0,
        TrackField::Genre => track.genre@.len() == 0,
        TrackField::Composer => track.composer@.len() == 0,
        TrackField::TrackNumber => track.track_number@ == 0,
        TrackField::DiscNumber => track.disc_number@ == 0,
        TrackField::Year => track.year@ == 0,
        TrackField::Duration => false,
    }
}

/// A second count as `m:ss`.
pub open spec fn minutes_seconds(secs: nat) -> Seq<char> {
    decimal(secs / 60).push(':') + decimal2(secs % 60)
}

/// The text of `f` for `track`: empty when absent, numbers in decimal, the
/// duration as `m:ss`.
pub open spec fn field_text(f: TrackField, track: Track) -> Seq<char> {
    if field_absent(f, track) {
        Seq::empty()
    } else {
        match f {
            TrackField::Title => track.title@,
            TrackField::Artist => track.artist@,
            TrackField::AlbumArtist => track.album_artist@,
            TrackField::Album => track.album@,
            TrackField::Genre => track.genre@,
            TrackField::Composer => track.composer@,
            TrackField::TrackNumber => decimal(track.track_number@ as nat),
            TrackField::DiscNumber => decimal(track.disc_number@ as nat),
            TrackField::Year => decimal(track.year@ as nat),
            TrackField::Duration => minutes_seconds(track.duration@ / 1000),
        }
    }
}

/// Lexicographic order on character sequences, by code point: `-1`, `0`, `1`.
pub open spec fn text_order(a: Seq<char>, b: Seq<char>) -> int
    decreases a.len(),
{
    if a.len() == 0 {
        if b.len() == 0 {
            0
        } else {
            -1
        }
    } else if b.len() == 0 {
        1
    } else if a[0] < b[0] {
        -1
    } else if a[0] > b[0] {
        1
    } else {
        text_order(a.drop_first(), b.drop_first())
    }
}

/// Three-way comparison of two numbers: `-1`, `0`, `1`.
pub open spec fn number_order(a: int, b: int) -> int {
    if a < b {
        -1
    } else if a == b {
        0
    } else {
        1
    }
}

/// How `a` compares with `b` on field `f`, by the field's typed value.
pub open spec fn field_order(f: TrackField, a: Track, b: Track) -> int {
    match f {
        TrackField::Title => text_order(a.title@, b.title@),
        TrackField::Artist => text_order(a.artist@, b.artist@),
        TrackField::AlbumArtist => text_order(a.album_artist@, b.album_artist@),
        TrackField::Album => text_order(a.album@, b.album@),
        TrackField::Genre => text_order(a.genre@, b.genre@),
        TrackField::Composer => text_order(a.composer@, b.composer@),
        TrackField::TrackNumber => number_order(a.track_number@ as int, b.track_number@ as int),
        TrackField::DiscNumber => number_order(a.disc_number@ as int, b.disc_number@ as int),
        TrackField::Year => number_order(a.year@ as int, b.year@ as int),
        TrackField::Duration => number_order(a.duration@ as int, b.duration@ as int),
    }
}

/// Compares `a` with `b` lexicographically by code point.
fn compare_text(a: &str, b: &str) -> (r: i8)
    ensures
        r as int == text_order(a@, b@),
        -1 <= r <= 1,
{
    let va = crate::text::chars_of(a);
    let vb = crate::text::chars_of(b);
    let mut i: usize = 0;
    assert(va@.subrange(0, va@.len() as int) == va@);
    assert(vb@.subrange(0, vb@.len() as int) == vb@);
    while i < va.len() && i < vb.len() && va[i] == vb[i]
        invariant
            i <= va@.len(),
            i <= vb@.len(),
            text_order(va@, vb@) == text_order(
                va@.subrange(i as int, va@.len() as int),
                vb@.subrange(i as int, vb@.len() as int),
            ),
        decreases va@.len() - i,
    {
        let ghost sa = va@.subrange(i as int, va@.len() as int);
        let ghost sb = vb@.subrange(i as int, vb@.len() as int);
        assert(sa.drop_first() == va@.subrange(i + 1, va@.len() as int));
        assert(sb.drop_first() == vb@.subrange(i + 1, vb@.len() as int));
        i = i + 1;
    }
    let ghost sa = va@.subrange(i as int, va@.len() as int);
    let ghost sb = vb@.subrange(i as int, vb@.len() as int);
    if i == va.len() {
        if i == vb.len() {
            0
        } else {
            -1
        }
    } else if i == vb.len() {
        1
    } else if va[i] < vb[i] {
        assert(sa[0] == va@[i as int]);
        -1
    } else {
        assert(sa[0] == va@[i as int] && sb[0] == vb@[i as int]);
        1
    }
}

fn compare_numbers(a: u64, b: u64) -> (r: i8)
    ensures
        r as int == number_order(a as int, b as int),
        -1 <= r <= 1,
{
    if a < b {
        -1
    } else if a == b {
        0
    } else {
        1
    }
}

fn ordering_of(r: i8) -> (o: core::cmp::Ordering)
    requires
        -1 <= r <= 1,
    ensures
        r == -1 ==> o == core::cmp::Ordering::Less,
        r == 0 ==> o == core::cmp::Ordering::Equal,
        r == 1 ==> o == core::cmp::Ordering::Greater,
{
    if r < 0 {
        core::cmp::Ordering::Less
    } else if r == 0 {
        core::cmp::Ordering::Equal
    } else {
        core::cmp::Ordering::Greater
    }
}

/// `-1`, `0`, `1` for less, equal, greater.
pub open spec fn order_value(o: core::cmp::Ordering) -> int {
    match o {
        core::cmp::Ordering::Less => -1,
        core::cmp::Ordering::Equal => 0,
        core::cmp::Ordering::Greater => 1,
    }
}

impl TrackField {
    /// Every field, in the canonical order the column picker lists them.
    pub fn all() -> (r: [TrackField; 10])
        ensures
            r@ == all_fields(),
    {
        let r = [
            TrackField::Title,
            TrackField::Artist,
            TrackField::AlbumArtist,
            TrackField::Album,
            TrackField::Genre,
            TrackField::Composer,
            TrackField::TrackNumber,
            TrackField::DiscNumber,
            TrackField::Year,
            TrackField::Duration,
        ];
        assert(r@ =~= all_fields());
        r
    }

    /// The label shown for this field in the column picker and, by default,
    /// as a column header.
    pub fn label(self) -> (r: &'static str)
        ensures
            r@ == field_label(self),
    {
        match self {
            TrackField::Title => "Title",
            TrackField::Artist => "Artist",
            TrackField::AlbumArtist => "Album Artist",
            TrackField::Album => "Album",
            TrackField::Genre => "Genre",
            TrackField::Composer => "Composer",
            TrackField::TrackNumber => "Track #",
            TrackField::DiscNumber => "Disc #",
            TrackField::Year => "Year",
            TrackField::Duration => "Duration",
        }
    }

    /// The name used inside `%...%` and persisted as a settings key.
    pub fn as_key(self) -> (r: &'static str)
        ensures
            r@ == field_key(self),
    {
        match self {
            TrackField::Title => "title",
            TrackField::Artist => "artist",
            TrackField::AlbumArtist => "album_artist",
            TrackField::Album => "album",
            TrackField::Genre => "genre",
            TrackField::Composer => "composer",
            TrackField::TrackNumber => "track",
            TrackField::DiscNumber => "disc",
            TrackField::Year => "year",
            TrackField::Duration => "duration",
        }
    }

    /// Parses a `%field%` name or a persisted settings key, or `None` when it
    /// names no known field.
    pub fn from_key(key: &str) -> (r: Option<Self>)
        ensures
            r == field_of_key(key@),
    {
        if same_text(key, "title") {
            Some(TrackField::Title)
        } else if same_text(key, "artist") {
            Some(TrackField::Artist)
        } else if same_text(key, "album_artist") {
            Some(TrackField::AlbumArtist)
        } else if same_text(key, "album") {
            Some(TrackField::Album)
        } else if same_text(key, "genre") {
            Some(TrackField::Genre)
        } else if same_text(key, "composer") {
            Some(TrackField::Composer)
        } else if same_text(key, "track") {
            Some(TrackField::TrackNumber)
        } else if same_text(key, "disc") {
            Some(TrackField::DiscNumber)
        } else if same_text(key, "year") {
            Some(TrackField::Year)
        } else if same_text(key, "duration") {
            Some(TrackField::Duration)
        } else {
            None
        }
    }

    /// Whether `track` has no value for this field — the condition an
    /// enclosing `[...]` group checks to decide whether it vanishes.
    pub fn is_absent(self, track: &Track) -> (r: bool)
        ensures
            r == field_absent(self, *track),
    {
        match self {
            TrackField::Title => track.title.is_unknown(),
            TrackField::Artist => track.artist.is_unknown(),
            TrackField::AlbumArtist => track.album_artist.is_unknown(),
            TrackField::Album => track.album.as_str().is_empty(),
            TrackField::Genre => track.genre.as_str().is_empty(),
            TrackField::Composer => track.composer.is_unknown(),
            TrackField::TrackNumber => track.track_number.is_unknown(),
            TrackField::DiscNumber => track.disc_number.is_unknown(),
            TrackField::Year => track.year.is_unknown(),
            TrackField::Duration => false,
        }
    }

    /// Appends this field's value for `track` to `out`; nothing when absent.
    pub fn render_into(self, out: &mut String, track: &Track)
        ensures
            final(out)@ == old(out)@ + field_text(self, *track),
    {
        if self.is_absent(track) {
            assert(old(out)@ + Seq::<char>::empty() == old(out)@);
            return;
        }
        match self {
            TrackField::Title => push_str(out, track.title.as_str()),
            TrackField::Artist => push_str(out, track.artist.as_str()),
            TrackField::AlbumArtist => push_str(out, track.album_artist.as_str()),
            TrackField::Album => push_str(out, track.album.as_str()),
            TrackField::Genre => push_str(out, track.genre.as_str()),
            TrackField::Composer => push_str(out, track.composer.as_str()),
            TrackField::TrackNumber => push_decimal(out, track.track_number.value() as u64),
            TrackField::DiscNumber => push_decimal(out, track.disc_number.value() as u64),
            TrackField::Year => push_decimal(out, track.year.value() as u64),
            TrackField::Duration => push_minutes_seconds(out, track.duration.as_secs()),
        }
    }

    /// Renders this field's value, or an empty string when absent — absence
    /// never leaks a literal placeholder like "Unknown".
    pub fn render(self, track: &Track) -> (r: String)
        ensures
            r@ == field_text(self, *track),
    {
        let mut r = String::new();
        self.render_into(&mut r, track);
        r
    }

    /// Compares two tracks by this field's typed value — never by rendered
    /// text, since e.g. `"10:00"` sorts before `"2:00"` lexicographically
    /// but not numerically. Drives column-header click-to-sort.
    pub fn compare(self, a: &Track, b: &Track) -> (r: core::cmp::Ordering)
        ensures
            order_value(r) == field_order(self, *a, *b),
    {
        let k = self.order_code(a, b);
        ordering_of(k)
    }

    fn order_code(self, a: &Track, b: &Track) -> (r: i8)
        ensures
            r as int == field_order(self, *a, *b),
            -1 <= r <= 1,
    {
        match self {
            TrackField::Title => compare_text(a.title.as_str(), b.title.as_str()),
            TrackField::Artist => compare_text(a.artist.as_str(), b.artist.as_str()),
            TrackField::AlbumArtist => compare_text(
                a.album_artist.as_str(),
                b.album_artist.as_str(),
            ),
            TrackField::Album => compare_text(a.album.as_str(), b.album.as_str()),
            TrackField::Genre => compare_text(a.genre.as_str(), b.genre.as_str()),
            TrackField::Composer => compare_text(a.composer.as_str(), b.composer.as_str()),
            TrackField::TrackNumber => compare_numbers(
                a.track_number.value() as u64,
                b.track_number.value() as u64,
            ),
            TrackField::DiscNumber => compare_numbers(
                a.disc_number.value() as u64,
                b.disc_number.value() as u64,
            ),
            TrackField::Year => compare_numbers(a.year.value() as u64, b.year.value() as u64),
            TrackField::Duration => a.duration.order_against(b.duration),
        }
    }
}

proof fn lemma_text_order_range(a: Seq<char>, b: Seq<char>)
    ensures
        -1 <= text_order(a, b) <= 1,
    decreases a.len(),
{
    if a.len() > 0 && b.len() > 0 && a[0] == b[0] {
        lemma_text_order_range(a.drop_first(), b.drop_first());
    }
}

/// Appends a second count as `m:ss`.
pub fn push_minutes_seconds(out: &mut String, secs: u64)
    ensures
        final(out)@ == old(out)@ + minutes_seconds(secs as nat),
{
    push_decimal(out, secs / 60);
    push_char(out, ':');
    push_decimal2(out, secs % 60);
    assert(old(out)@ + decimal((secs / 60) as nat) + seq![':'] + decimal2((secs % 60) as nat)
        == old(out)@ + minutes_seconds(secs as nat));
}

// ---------------------------------------------------------------------------
// Parsed format strings

/// One node of a parsed format string.
#[derive(Debug, PartialEq, Eq)]
pub enum FormatNode {
    Literal(String),
    Field(TrackField),
    /// Renders its children, or nothing at all when every `Field` reachable
    /// inside it (including nested groups) is absent.
    Optional(Vec<FormatNode>),
}

impl Clone for FormatNode {
    fn clone(&self) -> (r: Self)
        ensures
            node_view(r) == node_view(*self),
        decreases self,
    {
        match self {
            FormatNode::Literal(s) => FormatNode::Literal(s.clone()),
            FormatNode::Field(f) => FormatNode::Field(*f),
            FormatNode::Optional(v) => FormatNode::Optional(clone_nodes(v)),
        }
    }
}

fn clone_nodes(v: &Vec<FormatNode>) -> (r: Vec<FormatNode>)
    ensures
        nodes_view(r@) == nodes_view(v@),
    decreases v,
{
    let mut r: Vec<FormatNode> = Vec::new();
    let mut i: usize = 0;
    while i < v.len()
        invariant
            i <= v@.len(),
            nodes_view(r@) == nodes_view(v@.subrange(0, i as int)),
        decreases v@.len() - i,
    {
        let c = v[i].clone();
        proof {
            lemma_nodes_view_push(r@, c);
            lemma_nodes_view_push(v@.subrange(0, i as int), v@[i as int]);
            assert(v@.subrange(0, i + 1) == v@.subrange(0, i as int).push(v@[i as int]));
        }
        r.push(c);
        i = i + 1;
    }
    assert(v@.subrange(0, v@.len() as int) == v@);
    r
}

/// The mathematical form of a `FormatNode`.
pub enum Node {
    Literal(Seq<char>),
    Field(TrackField),
    Optional(Seq<Node>),
}

pub open spec fn node_view(n: FormatNode) -> Node
    decreases n,
{
    match n {
        FormatNode::Literal(s) => Node::Literal(s@),
        FormatNode::Field(f) => Node::Field(f),
        FormatNode::Optional(v) => Node::Optional(nodes_view(v@)),
    }
}

pub open spec fn nodes_view(s: Seq<FormatNode>) -> Seq<Node>
    decreases s,
{
    if s.len() == 0 {
        Seq::empty()
    } else {
        seq![node_view(s[0])] + nodes_view(s.drop_first())
    }
}

pub proof fn lemma_nodes_view_push(s: Seq<FormatNode>, n: FormatNode)
    ensures
        nodes_view(s.push(n)) == nodes_view(s).push(node_view(n)),
    decreases s.len(),
{
    if s.len() == 0 {
        assert(s.push(n).drop_first() == Seq::<FormatNode>::empty());
        assert(s.push(n)[0] == n);
        assert(nodes_view(Seq::<FormatNode>::empty()) == Seq::<Node>::empty());
        assert(nodes_view(s.push(n)) == seq![node_view(n)] + Seq::<Node>::empty());
        assert(seq![node_view(n)] + Seq::<Node>::empty() == nodes_view(s).push(node_view(n)));
    } else {
        assert(s.push(n).drop_first() == s.drop_first().push(n));
        assert(s.push(n)[0] == s[0]);
        lemma_nodes_view_push(s.drop_first(), n);
        assert(seq![node_view(s[0])] + nodes_view(s.drop_first()).push(node_view(n)) == (seq![
            node_view(s[0]),
        ] + nodes_view(s.drop_first())).push(node_view(n)));
    }
}

pub proof fn lemma_nodes_view_index(s: Seq<FormatNode>, i: int)
    requires
        0 <= i < s.len(),
    ensures
        nodes_view(s).len() == s.len(),
        nodes_view(s)[i] == node_view(s[i]),
    decreases s.len(),
{
    lemma_nodes_view_len(s);
    if i > 0 {
        lemma_nodes_view_index(s.drop_first(), i - 1);
    }
}

pub proof fn lemma_nodes_view_len(s: Seq<FormatNode>)
    ensures
        nodes_view(s).len() == s.len(),
    decreases s.len(),
{
    if s.len() > 0 {
        lemma_nodes_view_len(s.drop_first());
    }
}

/// Everything that can go wrong parsing a format string.
#[derive(Debug, Clone, PartialEq, Eq)]
pub enum FormatParseError {
    UnknownField(String),
    UnterminatedField,
    UnterminatedGroup,
    UnexpectedGroupClose,
    TrailingEscape,
}

/// The mathematical form of a `FormatParseError`.
pub enum ParseFailure {
    UnknownField(Seq<char>),
    UnterminatedField,
    UnterminatedGroup,
    UnexpectedGroupClose,
    TrailingEscape,
}

impl View for FormatParseError {
    type V = ParseFailure;

    open spec fn view(&self) -> ParseFailure {
        match self {
            FormatParseError::UnknownField(s) => ParseFailure::UnknownField(s@),
            FormatParseError::UnterminatedField => ParseFailure::UnterminatedField,
            FormatParseError::UnterminatedGroup => ParseFailure::UnterminatedGroup,
            FormatParseError::UnexpectedGroupClose => ParseFailure::UnexpectedGroupClose,
            FormatParseError::TrailingEscape => ParseFailure::TrailingEscape,
        }
    }
}

/// `acc` followed by the pending literal `lit`, when there is one.
pub open spec fn flush(acc: Seq<Node>, lit: Seq<char>) -> Seq<Node> {
    if lit.len() == 0 {
        acc
    } else {
        acc.push(Node::Literal(lit))
    }
}

/// The index of the first `%` in `chars` at or after `i`, or its length.
pub open spec fn percent_from(chars: Seq<char>, i: int) -> int
    decreases chars.len() - i,
{
    if i >= chars.len() {
        chars.len() as int
    } else if chars[i] == '%' {
        i
    } else {
        percent_from(chars, i + 1)
    }
}

pub proof fn lemma_percent_from(chars: Seq<char>, i: int)
    requires
        0 <= i,
    ensures
        i <= percent_from(chars, i) || i > chars.len(),
        percent_from(chars, i) <= chars.len() || i > chars.len(),
        percent_from(chars, i) < chars.len() ==> chars[percent_from(chars, i)] == '%',
        forall|k: int| i <= k < percent_from(chars, i) ==> chars[k] != '%',
    decreases chars.len() - i,
{
    if i < chars.len() && chars[i] != '%' {
        lemma_percent_from(chars, i + 1);
    }
}

/// The result of parsing `chars` from `pos` on: the nodes read (after those
/// already in `acc`, with the literal `lit` still pending) and the position
/// where reading stopped — at the end of the text, or, inside a group, at its
/// closing `]`. Reading goes left to right; the first problem met is the
/// error.
pub open spec fn parse_from(
    chars: Seq<char>,
    pos: int,
    in_group: bool,
    lit: Seq<char>,
    acc: Seq<Node>,
) -> Result<(Seq<Node>, int), ParseFailure>
    decreases chars.len() - pos,
{
    if pos < 0 || pos >= chars.len() {
        Ok((flush(acc, lit), pos))
    } else {
        let c = chars[pos];
        if c == ']' {
            if in_group {
                Ok((flush(acc, lit), pos))
            } else {
                Err(ParseFailure::UnexpectedGroupClose)
            }
        } else if c == '[' {
            match parse_from(chars, pos + 1, true, Seq::empty(), Seq::empty()) {
                Err(e) => Err(e),
                Ok((inner, p)) => if p >= chars.len() || chars[p] != ']' || p < pos + 1 {
                    Err(ParseFailure::UnterminatedGroup)
                } else {
                    parse_from(
                        chars,
                        p + 1,
                        in_group,
                        Seq::empty(),
                        flush(acc, lit).push(Node::Optional(inner)),
                    )
                },
            }
        } else if c == '%' {
            let end = percent_from(chars, pos + 1);
            if end >= chars.len() || end < pos + 1 {
                Err(ParseFailure::UnterminatedField)
            } else {
                let name = chars.subrange(pos + 1, end);
                match field_of_key(name) {
                    None => Err(ParseFailure::UnknownField(name)),
                    Some(f) => parse_from(
                        chars,
                        end + 1,
                        in_group,
                        Seq::empty(),
                        flush(acc, lit).push(Node::Field(f)),
                    ),
                }
            }
        } else if c == '\\' {
            if pos + 1 >= chars.len() {
                Err(ParseFailure::TrailingEscape)
            } else {
                parse_from(chars, pos + 2, in_group, lit.push(chars[pos + 1]), acc)
            }
        } else {
            parse_from(chars, pos + 1, in_group, lit.push(c), acc)
        }
    }
}

/// The nodes `text` parses to, or the first error in it: literal text;
/// `%field%` placeholders naming a `TrackField`; `[...]` optional groups;
/// `\` making the next character literal.
pub open spec fn parse_text(text: Seq<char>) -> Result<Seq<Node>, ParseFailure> {
    match parse_from(text, 0, false, Seq::empty(), Seq::empty()) {
        Ok((nodes, _)) => Ok(nodes),
        Err(e) => Err(e),
    }
}

fn flush_literal(nodes: &mut Vec<FormatNode>, literal: String) -> (ghost_unused: ())
    ensures
        nodes_view(final(nodes)@) == flush(nodes_view(old(nodes)@), literal@),
{
    if !literal.as_str().is_empty() {
        proof {
            lemma_nodes_view_push(old(nodes)@, FormatNode::Literal(literal));
        }
        nodes.push(FormatNode::Literal(literal));
    }
}

fn parse_nodes(chars: &Vec<char>, pos: &mut usize, in_group: bool) -> (r: Result<
    Vec<FormatNode>,
    FormatParseError,
>)
    requires
        *old(pos) <= chars@.len(),
    ensures
        *old(pos) <= *final(pos) <= chars@.len(),
        match r {
            Ok(nodes) => parse_from(chars@, *old(pos) as int, in_group, Seq::empty(), Seq::empty())
                == Ok::<(Seq<Node>, int), ParseFailure>(
                (nodes_view(nodes@), *final(pos) as int),
            ),
            Err(e) => parse_from(chars@, *old(pos) as int, in_group, Seq::empty(), Seq::empty())
                == Err::<(Seq<Node>, int), ParseFailure>(e@),
        },
    decreases chars@.len() - *old(pos),
{
    let ghost start = *pos as int;
    let mut nodes: Vec<FormatNode> = Vec::new();
    let mut literal = String::new();
    while *pos < chars.len()
        invariant
            start == *old(pos),
            start <= *pos <= chars@.len(),
            parse_from(chars@, start, in_group, Seq::empty(), Seq::empty()) == parse_from(
                chars@,
                *pos as int,
                in_group,
                literal@,
                nodes_view(nodes@),
            ),
        ensures
            start <= *pos <= chars@.len(),
            parse_from(chars@, start, in_group, Seq::empty(), Seq::empty()) == parse_from(
                chars@,
                *pos as int,
                in_group,
                literal@,
                nodes_view(nodes@),
            ),
            *pos == chars@.len() || (in_group && chars@[*pos as int] == ']'),
        decreases chars@.len() - *pos,
    {
        let c = chars[*pos];
        if c == ']' {
            if in_group {
                break;
            }
            return Err(FormatParseError::UnexpectedGroupClose);
        } else if c == '[' {
            flush_literal(&mut nodes, literal);
            literal = String::new();
            let ghost here = *pos as int;
            *pos = *pos + 1;
            let inner = parse_nodes(chars, pos, true)?;
            if *pos >= chars.len() || chars[*pos] != ']' {
                return Err(FormatParseError::UnterminatedGroup);
            }
            *pos = *pos + 1;
            proof {
                lemma_nodes_view_push(nodes@, FormatNode::Optional(inner));
            }
            nodes.push(FormatNode::Optional(inner));
        } else if c == '%' {
            flush_literal(&mut nodes, literal);
            literal = String::new();
            *pos = *pos + 1;
            let start_name = *pos;
            proof {
                lemma_percent_from(chars@, start_name as int);
            }
            while *pos < chars.len() && chars[*pos] != '%'
                invariant
                    start_name <= *pos <= chars@.len(),
                    percent_from(chars@, start_name as int) == percent_from(chars@, *pos as int),
                decreases chars@.len() - *pos,
            {
                *pos = *pos + 1;
            }
            if *pos >= chars.len() {
                return Err(FormatParseError::UnterminatedField);
            }
            let name = crate::text::string_of(chars, start_name, *pos);
            *pos = *pos + 1;
            match TrackField::from_key(name.as_str()) {
                Some(field) => {
                    proof {
                        lemma_nodes_view_push(nodes@, FormatNode::Field(field));
                    }
                    nodes.push(FormatNode::Field(field));
                },
                None => {
                    return Err(FormatParseError::UnknownField(name));
                },
            }
        } else if c == '\\' {
            if *pos + 1 >= chars.len() {
                return Err(FormatParseError::TrailingEscape);
            }
            push_char(&mut literal, chars[*pos + 1]);
            *pos = *pos + 2;
        } else {
            push_char(&mut literal, c);
            *pos = *pos + 1;
        }
    }
    flush_literal(&mut nodes, literal);
    Ok(nodes)
}

// ---------------------------------------------------------------------------
// Well-formed node lists, printing and rendering

/// A node list as the parser produces it: no empty literal, no two literals
/// side by side, and the same inside every group.
pub open spec fn nodes_wf(s: Seq<Node>) -> bool
    decreases s,
{
    if s.len() == 0 {
        true
    } else {
        &&& node_wf(s[0])
        &&& (s.len() > 1 ==> !(s[0] is Literal && s[1] is Literal))
        &&& nodes_wf(s.drop_first())
    }
}

pub open spec fn node_wf(n: Node) -> bool
    decreases n,
{
    match n {
        Node::Literal(t) => t.len() > 0,
        Node::Field(_) => true,
        Node::Optional(inner) => nodes_wf(inner),
    }
}

/// The characters a literal escapes with a backslash when printed.
pub open spec fn is_reserved(c: char) -> bool {
    c == '%' || c == '[' || c == ']' || c == '\\'
}

/// How one literal character is printed.
pub open spec fn escape_char(c: char) -> Seq<char> {
    if is_reserved(c) {
        seq!['\\', c]
    } else {
        seq![c]
    }
}

/// Literal text as printed: each reserved character behind a backslash.
pub open spec fn escape(s: Seq<char>) -> Seq<char>
    decreases s.len(),
{
    if s.len() == 0 {
        Seq::empty()
    } else {
        escape_char(s[0]) + escape(s.drop_first())
    }
}

/// The format-string text of a node.
pub open spec fn print_node(n: Node) -> Seq<char>
    decreases n,
{
    match n {
        Node::Literal(t) => escape(t),
        Node::Field(f) => seq!['%'] + field_key(f) + seq!['%'],
        Node::Optional(inner) => seq!['['] + print_nodes(inner) + seq![']'],
    }
}

/// The format-string text of a node list.
pub open spec fn print_nodes(s: Seq<Node>) -> Seq<char>
    decreases s,
{
    if s.len() == 0 {
        Seq::empty()
    } else {
        print_node(s[0]) + print_nodes(s.drop_first())
    }
}

/// Whether a node holds a field `track` has a value for, at any depth.
pub open spec fn node_present(n: Node, track: Track) -> bool
    decreases n,
{
    match n {
        Node::Literal(_) => false,
        Node::Field(f) => !field_absent(f, track),
        Node::Optional(inner) => any_present(inner, track),
    }
}

/// Whether any node of `s` holds a field `track` has a value for.
pub open spec fn any_present(s: Seq<Node>, track: Track) -> bool
    decreases s,
{
    if s.len() == 0 {
        false
    } else {
        node_present(s[0], track) || any_present(s.drop_first(), track)
    }
}

/// The text a node renders to for `track`.
pub open spec fn render_node(n: Node, track: Track) -> Seq<char>
    decreases n,
{
    match n {
        Node::Literal(t) => t,
        Node::Field(f) => field_text(f, track),
        Node::Optional(inner) => if any_present(inner, track) {
            render_nodes(inner, track)
        } else {
            Seq::empty()
        },
    }
}

/// The text a node list renders to for `track`.
pub open spec fn render_nodes(s: Seq<Node>, track: Track) -> Seq<char>
    decreases s,
{
    if s.len() == 0 {
        Seq::empty()
    } else {
        render_node(s[0], track) + render_nodes(s.drop_first(), track)
    }
}

pub proof fn lemma_print_nodes_push(s: Seq<Node>, n: Node)
    ensures
        print_nodes(s.push(n)) == print_nodes(s) + print_node(n),
    decreases s.len(),
{
    assert(s.push(n)[0] == if s.len() == 0 { n } else { s[0] });
    if s.len() == 0 {
        assert(s.push(n).drop_first() == Seq::<Node>::empty());
        assert(print_nodes(Seq::<Node>::empty()) == Seq::<char>::empty());
        assert(print_nodes(s.push(n)) == print_node(n) + Seq::<char>::empty());
        assert(print_node(n) + Seq::<char>::empty() == print_node(n));
        assert(print_nodes(s) == Seq::<char>::empty());
        assert(Seq::<char>::empty() + print_node(n) == print_node(n));
    } else {
        assert(s.push(n).drop_first() == s.drop_first().push(n));
        lemma_print_nodes_push(s.drop_first(), n);
        assert(print_node(s[0]) + (print_nodes(s.drop_first()) + print_node(n)) == (print_node(
            s[0],
        ) + print_nodes(s.drop_first())) + print_node(n));
    }
}

pub proof fn lemma_render_nodes_push(s: Seq<Node>, n: Node, track: Track)
    ensures
        render_nodes(s.push(n), track) == render_nodes(s, track) + render_node(n, track),
        any_present(s.push(n), track) == (any_present(s, track) || node_present(n, track)),
    decreases s.len(),
{
    assert(s.push(n)[0] == if s.len() == 0 { n } else { s[0] });
    if s.len() == 0 {
        assert(s.push(n).drop_first() == Seq::<Node>::empty());
        assert(render_nodes(Seq::<Node>::empty(), track) == Seq::<char>::empty());
        assert(!any_present(Seq::<Node>::empty(), track));
        assert(render_nodes(s.push(n), track) == render_node(n, track) + Seq::<char>::empty());
        assert(render_node(n, track) + Seq::<char>::empty() == render_node(n, track));
        assert(Seq::<char>::empty() + render_node(n, track) == render_node(n, track));
    } else {
        assert(s.push(n).drop_first() == s.drop_first().push(n));
        lemma_render_nodes_push(s.drop_first(), n, track);
        assert(render_node(s[0], track) + (render_nodes(s.drop_first(), track) + render_node(
            n,
            track,
        )) == (render_node(s[0], track) + render_nodes(s.drop_first(), track)) + render_node(
            n,
            track,
        ));
    }
}

proof fn lemma_escape_push(s: Seq<char>, c: char)
    ensures
        escape(s.push(c)) == escape(s) + escape_char(c),
    decreases s.len(),
{
    assert(s.push(c)[0] == if s.len() == 0 { c } else { s[0] });
    if s.len() == 0 {
        assert(s.push(c).drop_first() == Seq::<char>::empty());
        assert(escape(Seq::<char>::empty()) == Seq::<char>::empty());
        assert(escape(s.push(c)) == escape_char(c) + Seq::<char>::empty());
        assert(escape_char(c) + Seq::<char>::empty() == escape_char(c));
        assert(Seq::<char>::empty() + escape_char(c) == escape_char(c));
    } else {
        assert(s.push(c).drop_first() == s.drop_first().push(c));
        lemma_escape_push(s.drop_first(), c);
        assert(escape_char(s[0]) + (escape(s.drop_first()) + escape_char(c)) == (escape_char(s[0])
            + escape(s.drop_first())) + escape_char(c));
    }
}

fn write_literal(out: &mut String, s: &String)
    ensures
        final(out)@ == old(out)@ + escape(s@),
{
    let v = crate::text::chars_of(s.as_str());
    let mut i: usize = 0;
    while i < v.len()
        invariant
            i <= v@.len(),
            v@ == s@,
            out@ == old(out)@ + escape(v@.subrange(0, i as int)),
        decreases v@.len() - i,
    {
        let c = v[i];
        if c == '%' || c == '[' || c == ']' || c == '\\' {
            push_char(out, '\\');
        }
        push_char(out, c);
        proof {
            lemma_escape_push(v@.subrange(0, i as int), c);
            assert(v@.subrange(0, i + 1) == v@.subrange(0, i as int).push(c));
        }
        i = i + 1;
    }
    assert(v@.subrange(0, v@.len() as int) == v@);
}

fn write_node(out: &mut String, node: &FormatNode)
    ensures
        final(out)@ == old(out)@ + print_node(node_view(*node)),
    decreases node,
{
    match node {
        FormatNode::Literal(s) => write_literal(out, s),
        FormatNode::Field(f) => {
            push_char(out, '%');
            push_str(out, f.as_key());
            push_char(out, '%');
        },
        FormatNode::Optional(inner) => {
            push_char(out, '[');
            write_nodes(out, inner);
            push_char(out, ']');
        },
    }
}

fn write_nodes(out: &mut String, nodes: &Vec<FormatNode>)
    ensures
        final(out)@ == old(out)@ + print_nodes(nodes_view(nodes@)),
    decreases nodes,
{
    let mut i: usize = 0;
    while i < nodes.len()
        invariant
            i <= nodes@.len(),
            out@ == old(out)@ + print_nodes(nodes_view(nodes@.subrange(0, i as int))),
        decreases nodes@.len() - i,
    {
        write_node(out, &nodes[i]);
        proof {
            let pre = nodes@.subrange(0, i as int);
            assert(nodes@.subrange(0, i + 1) == pre.push(nodes@[i as int]));
            lemma_nodes_view_push(pre, nodes@[i as int]);
            lemma_print_nodes_push(nodes_view(pre), node_view(nodes@[i as int]));
        }
        i = i + 1;
    }
    assert(nodes@.subrange(0, nodes@.len() as int) == nodes@);
}

fn any_field_present(nodes: &Vec<FormatNode>, track: &Track) -> (r: bool)
    ensures
        r == any_present(nodes_view(nodes@), *track),
    decreases nodes,
{
    let mut i: usize = 0;
    while i < nodes.len()
        invariant
            i <= nodes@.len(),
            !any_present(nodes_view(nodes@.subrange(0, i as int)), *track),
        decreases nodes@.len() - i,
    {
        let present = match &nodes[i] {
            FormatNode::Literal(_) => false,
            FormatNode::Field(field) => !field.is_absent(track),
            FormatNode::Optional(inner) => any_field_present(inner, track),
        };
        proof {
            let pre = nodes@.subrange(0, i as int);
            assert(nodes@.subrange(0, i + 1) == pre.push(nodes@[i as int]));
            lemma_nodes_view_push(pre, nodes@[i as int]);
            lemma_render_nodes_push(nodes_view(pre), node_view(nodes@[i as int]), *track);
        }
        if present {
            proof {
                lemma_nodes_view_len(nodes@);
                lemma_nodes_view_prefix(nodes@, i as int + 1);
                lemma_any_present_prefix(nodes_view(nodes@), i as int + 1, *track);
            }
            return true;
        }
        i = i + 1;
    }
    assert(nodes@.subrange(0, nodes@.len() as int) == nodes@);
    false
}

proof fn lemma_nodes_view_prefix(s: Seq<FormatNode>, k: int)
    requires
        0 <= k <= s.len(),
    ensures
        nodes_view(s.subrange(0, k)) == nodes_view(s).subrange(0, k),
    decreases k,
{
    lemma_nodes_view_len(s);
    if k == 0 {
        assert(s.subrange(0, 0) == Seq::<FormatNode>::empty());
        assert(nodes_view(s).subrange(0, 0) == Seq::<Node>::empty());
    } else {
        lemma_nodes_view_prefix(s, k - 1);
        assert(s.subrange(0, k) == s.subrange(0, k - 1).push(s[k - 1]));
        lemma_nodes_view_push(s.subrange(0, k - 1), s[k - 1]);
        lemma_nodes_view_index(s, k - 1);
        assert(nodes_view(s).subrange(0, k) == nodes_view(s).subrange(0, k - 1).push(
            nodes_view(s)[k - 1],
        ));
    }
}

proof fn lemma_any_present_prefix(s: Seq<Node>, k: int, track: Track)
    requires
        0 <= k <= s.len(),
        any_present(s.subrange(0, k), track),
    ensures
        any_present(s, track),
    decreases k,
{
    if s.len() > 0 {
        if node_present(s[0], track) {
        } else {
            assert(s.subrange(0, k).drop_first() == s.drop_first().subrange(0, k - 1));
            lemma_any_present_prefix(s.drop_first(), k - 1, track);
        }
    }
}

fn render_node_into(out: &mut String, node: &FormatNode, track: &Track)
    ensures
        final(out)@ == old(out)@ + render_node(node_view(*node), *track),
    decreases node,
{
    match node {
        FormatNode::Literal(s) => push_str(out, s.as_str()),
        FormatNode::Field(field) => field.render_into(out, track),
        FormatNode::Optional(inner) => {
            if any_field_present(inner, track) {
                render_nodes_into(out, inner, track);
            } else {
                assert(old(out)@ + Seq::<char>::empty() == old(out)@);
            }
        },
    }
}

fn render_nodes_into(out: &mut String, nodes: &Vec<FormatNode>, track: &Track)
    ensures
        final(out)@ == old(out)@ + render_nodes(nodes_view(nodes@), *track),
    decreases nodes,
{
    let mut i: usize = 0;
    while i < nodes.len()
        invariant
            i <= nodes@.len(),
            out@ == old(out)@ + render_nodes(nodes_view(nodes@.subrange(0, i as int)), *track),
        decreases nodes@.len() - i,
    {
        render_node_into(out, &nodes[i], track);
        proof {
            let pre = nodes@.subrange(0, i as int);
            assert(nodes@.subrange(0, i + 1) == pre.push(nodes@[i as int]));
            lemma_nodes_view_push(pre, nodes@[i as int]);
            lemma_render_nodes_push(nodes_view(pre), node_view(nodes@[i as int]), *track);
        }
        i = i + 1;
    }
    assert(nodes@.subrange(0, nodes@.len() as int) == nodes@);
}

/// A parsed format string, ready to render against any `Track`.
#[derive(Debug, PartialEq, Eq)]
pub struct FormatExpr(Vec<FormatNode>);

impl View for FormatExpr {
    type V = Seq<Node>;

    closed spec fn view(&self) -> Seq<Node> {
        nodes_view(self.0@)
    }
}

impl Clone for FormatExpr {
    fn clone(&self) -> (r: Self)
        ensures
            r@ == self@,
    {
        proof {
            use_type_invariant(self);
        }
        FormatExpr(clone_nodes(&self.0))
    }
}

impl FormatExpr {
    #[verifier::type_invariant]
    spec fn inv(self) -> bool {
        nodes_wf(nodes_view(self.0@))
    }

    /// The bare `%field%` expression for `field` — infallible, since it never
    /// goes through the string parser. This is the default format a column
    /// slot uses before the user customizes it.
    pub fn field_only(field: TrackField) -> (r: Self)
        ensures
            r@ == seq![Node::Field(field)],
    {
        let mut v: Vec<FormatNode> = Vec::new();
        v.push(FormatNode::Field(field));
        proof {
            let e = seq![Node::Field(field)];
            assert(v@.drop_first() == Seq::<FormatNode>::empty());
            assert(v@[0] == FormatNode::Field(field));
            assert(v@.len() == 1);
            assert(nodes_view(Seq::<FormatNode>::empty()) == Seq::<Node>::empty());
            assert(nodes_view(v@) == seq![node_view(v@[0])] + nodes_view(v@.drop_first()));
            assert(nodes_view(v@) =~= e);
            assert(e.drop_first() == Seq::<Node>::empty());
            assert(nodes_wf(Seq::<Node>::empty()));
            assert(node_wf(e[0]));
            assert(nodes_wf(e));
        }
        FormatExpr(v)
    }

    /// The format-string text of this expression, which parses back to it.
    pub fn to_string(&self) -> (r: String)
        ensures
            r@ == print_nodes(self@),
            nodes_wf(self@),
    {
        proof {
            use_type_invariant(self);
        }
        let mut r = String::new();
        write_nodes(&mut r, &self.0);
        r
    }
}

/// Parses a format string. Grammar: literal text; `%field%` placeholders
/// naming a [`TrackField`]; `[...]` optional groups; `\` escapes the next
/// character literally (so `\%`, `\[`, `\]`, `\\` render as themselves).
pub fn parse(input: &str) -> (r: Result<FormatExpr, FormatParseError>)
    ensures
        match r {
            Ok(e) => parse_text(input@) == Ok::<Seq<Node>, ParseFailure>(e@),
            Err(err) => parse_text(input@) == Err::<Seq<Node>, ParseFailure>(err@),
        },
{
    let chars = crate::text::chars_of(input);
    let mut pos: usize = 0;
    let nodes = parse_nodes(&chars, &mut pos, false)?;
    proof {
        crate::format_laws::lemma_parse_wf(chars@);
    }
    Ok(FormatExpr(nodes))
}

/// Renders `expr` against `track`.
pub fn render(expr: &FormatExpr, track: &Track) -> (r: String)
    ensures
        r@ == render_nodes(expr@, *track),
{
    let mut r = String::new();
    render_nodes_into(&mut r, &expr.0, track);
    r
}

} // verus!
