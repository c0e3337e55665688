//! What holds of format strings as a whole: the parser only produces
//! well-formed node lists, and printing a well-formed list gives text that
//! parses back to it.
use vstd::prelude::*;
use crate::track::Track;
use crate::text::lemma_decimal_parses;
use crate::text::integer_text;
use crate::format::field_text;

use crate::format::escape;
use crate::format::escape_char;
use crate::format::field_key;
use crate::format::field_of_key;
use crate::format::flush;
use crate::format::is_reserved;
use crate::format::percent_from;
use crate::format::print_node;
use crate::format::print_nodes;
use crate::format::TrackField;
use crate::format::node_wf;
use crate::format::nodes_wf;
use crate::format::parse_from;
use crate::format::parse_text;
use crate::format::Node;

verus! {

/// A node list the parser is building: well formed and not ending in a
/// literal, so that a pending literal can still be appended.
pub open spec fn open_list(acc: Seq<Node>) -> bool {
    nodes_wf(acc) && (acc.len() > 0 ==> !(acc.last() is Literal))
}

pub proof fn lemma_nodes_wf_push(s: Seq<Node>, x: Node)
    ensures
        nodes_wf(s.push(x)) == (nodes_wf(s) && node_wf(x) && (s.len() > 0 ==> !(s.last() is Literal
            && x is Literal))),
    decreases s.len(),
{
    assert(s.push(x)[0] == if s.len() == 0 { x } else { s[0] });
    assert(nodes_wf(Seq::<Node>::empty()));
    if s.len() == 0 {
        assert(s.push(x).drop_first() == Seq::<Node>::empty());
    } else {
        assert(s.last() == s[s.len() - 1]);
        assert(s.push(x).drop_first() == s.drop_first().push(x));
        lemma_nodes_wf_push(s.drop_first(), x);
        if s.len() > 1 {
            assert(s.push(x)[1] == s[1]);
            assert(s.drop_first().last() == s.last());
        } else {
            assert(s.push(x)[1] == x);
            assert(s.drop_first() == Seq::<Node>::empty());
            assert(s.last() == s[0]);
        }
    }
}

proof fn lemma_flush_wf(acc: Seq<Node>, lit: Seq<char>)
    requires
        open_list(acc),
    ensures
        nodes_wf(flush(acc, lit)),
{
    if lit.len() > 0 {
        lemma_nodes_wf_push(acc, Node::Literal(lit));
    }
}

proof fn lemma_push_closed(acc: Seq<Node>, lit: Seq<char>, x: Node)
    requires
        open_list(acc),
        node_wf(x),
        !(x is Literal),
    ensures
        open_list(flush(acc, lit).push(x)),
{
    lemma_flush_wf(acc, lit);
    lemma_nodes_wf_push(flush(acc, lit), x);
}

/// Reading never moves backwards, and every node list it yields is well
/// formed.
pub proof fn lemma_parse_from_wf(
    chars: Seq<char>,
    pos: int,
    in_group: bool,
    lit: Seq<char>,
    acc: Seq<Node>,
)
    requires
        open_list(acc),
    ensures
        parse_from(chars, pos, in_group, lit, acc) matches Ok((n, p)) ==> nodes_wf(n) && p >= pos,
    decreases chars.len() - pos,
{
    if pos < 0 || pos >= chars.len() {
        lemma_flush_wf(acc, lit);
    } else {
        let c = chars[pos];
        if c == ']' {
            lemma_flush_wf(acc, lit);
        } else if c == '[' {
            lemma_parse_from_wf(chars, pos + 1, true, Seq::empty(), Seq::empty());
            match parse_from(chars, pos + 1, true, Seq::empty(), Seq::empty()) {
                Err(e) => {},
                Ok((inner, p)) => {
                    if p >= chars.len() || chars[p] != ']' || p < pos + 1 {
                    } else {
                        lemma_push_closed(acc, lit, Node::Optional(inner));
                        lemma_parse_from_wf(
                            chars,
                            p + 1,
                            in_group,
                            Seq::empty(),
                            flush(acc, lit).push(Node::Optional(inner)),
                        );
                    }
                },
            }
        } else if c == '%' {
            let end = crate::format::percent_from(chars, pos + 1);
            if end >= chars.len() || end < pos + 1 {
            } else {
                let name = chars.subrange(pos + 1, end);
                match crate::format::field_of_key(name) {
                    None => {},
                    Some(f) => {
                        lemma_push_closed(acc, lit, Node::Field(f));
                        lemma_parse_from_wf(
                            chars,
                            end + 1,
                            in_group,
                            Seq::empty(),
                            flush(acc, lit).push(Node::Field(f)),
                        );
                    },
                }
            }
        } else if c == '\\' {
            if pos + 1 < chars.len() {
                lemma_parse_from_wf(chars, pos + 2, in_group, lit.push(chars[pos + 1]), acc);
            }
        } else {
            lemma_parse_from_wf(chars, pos + 1, in_group, lit.push(c), acc);
        }
    }
}

/// Whatever text parses successfully parses to a well-formed node list.
pub proof fn lemma_parse_wf(text: Seq<char>)
    ensures
        parse_text(text) matches Ok(nodes) ==> nodes_wf(nodes),
{
    lemma_parse_from_wf(text, 0, false, Seq::empty(), Seq::empty());
}

/// Every field's key names that field and holds no `%`.
pub proof fn lemma_field_key(f: TrackField)
    ensures
        field_of_key(field_key(f)) == Some(f),
        forall|i: int| 0 <= i < field_key(f).len() ==> field_key(f)[i] != '%',
{
    lemma_field_key_names(f);
    lemma_field_key_chars(f);
}

proof fn lemma_field_key_chars(f: TrackField)
    ensures
        forall|i: int| 0 <= i < field_key(f).len() ==> field_key(f)[i] != '%',
{
    reveal_strlit("title");
    reveal_strlit("artist");
    reveal_strlit("album_artist");
    reveal_strlit("album");
    reveal_strlit("genre");
    reveal_strlit("composer");
    reveal_strlit("track");
    reveal_strlit("disc");
    reveal_strlit("year");
    reveal_strlit("duration");
}

proof fn lemma_field_key_names(f: TrackField)
    ensures
        field_of_key(field_key(f)) == Some(f),
{
    reveal_strlit("title");
    reveal_strlit("artist");
    reveal_strlit("album_artist");
    reveal_strlit("album");
    reveal_strlit("genre");
    reveal_strlit("composer");
    reveal_strlit("track");
    reveal_strlit("disc");
    reveal_strlit("year");
    reveal_strlit("duration");
    match f {
        TrackField::Album => {
            assert("album"@[0] != "title"@[0]);
            assert("album"@ != "title"@);
            assert("album"@.len() != "artist"@.len());
            assert("album"@ != "artist"@);
            assert("album"@ != "album_artist"@);
            assert(field_of_key("album"@) == Some(TrackField::Album));
        },
        TrackField::Genre => {
            assert("genre"@[0] != "title"@[0]);
            assert("genre"@[0] != "album"@[0]);
        },
        TrackField::TrackNumber => {
            assert("track"@[1] != "title"@[1]);
            assert("track"@[0] != "album"@[0]);
            assert("track"@[0] != "genre"@[0]);
        },
        TrackField::Year => {
            assert("year"@[0] != "disc"@[0]);
        },
        TrackField::Duration => {
            assert("duration"@[0] != "composer"@[0]);
        },
        TrackField::Title => {},
        TrackField::Artist => {
            assert("artist"@.len() != "title"@.len());
        },
        TrackField::AlbumArtist => {
            assert("album_artist"@.len() != "title"@.len());
            assert("album_artist"@.len() != "artist"@.len());
        },
        TrackField::Composer => {
            assert("composer"@.len() == 8);
        },
        TrackField::DiscNumber => {
            assert("disc"@.len() == 4);
        },
    }
}

proof fn lemma_percent_at(chars: Seq<char>, i: int, j: int)
    requires
        0 <= i <= j < chars.len(),
        chars[j] == '%',
        forall|k: int| i <= k < j ==> chars[k] != '%',
    ensures
        percent_from(chars, i) == j,
    decreases j - i,
{
    if i < j {
        lemma_percent_at(chars, i + 1, j);
    }
}

/// Reading a printed literal just collects its characters.
proof fn lemma_scan_literal(
    chars: Seq<char>,
    pos: int,
    in_group: bool,
    lit: Seq<char>,
    acc: Seq<Node>,
    t: Seq<char>,
)
    requires
        0 <= pos,
        pos + escape(t).len() <= chars.len(),
        chars.subrange(pos, pos + escape(t).len()) == escape(t),
    ensures
        parse_from(chars, pos, in_group, lit, acc) == parse_from(
            chars,
            pos + escape(t).len(),
            in_group,
            lit + t,
            acc,
        ),
    decreases t.len(),
{
    if t.len() == 0 {
        assert(lit + t == lit);
    } else {
        let c = t[0];
        let rest = t.drop_first();
        let e = escape_char(c);
        assert(escape(t) == e + escape(rest));
        let n = e.len() as int;
        assert(chars.subrange(pos, pos + n) == e) by {
            assert(chars.subrange(pos, pos + n) == chars.subrange(pos, pos + escape(t).len()).subrange(0, n));
        }
        assert(chars.subrange(pos + n, pos + n + escape(rest).len()) == escape(rest)) by {
            assert(chars.subrange(pos + n, pos + n + escape(rest).len()) == chars.subrange(
                pos,
                pos + escape(t).len(),
            ).subrange(n, n + escape(rest).len()));
        }
        assert(lit.push(c) + rest == lit + t);
        if is_reserved(c) {
            assert(chars[pos] == e[0]);
            assert(chars[pos + 1] == e[1]);
        } else {
            assert(chars[pos] == e[0]);
        }
        lemma_scan_literal(chars, pos + n, in_group, lit.push(c), acc, rest);
    }
}

/// Where the printed text of a well-formed node list stands in `chars`,
/// followed by the end of the text (or, inside a group, by its `]`),
/// reading it gives back that list.
pub proof fn lemma_parse_printed(
    chars: Seq<char>,
    pos: int,
    in_group: bool,
    lit: Seq<char>,
    acc: Seq<Node>,
    ns: Seq<Node>,
)
    requires
        nodes_wf(ns),
        lit.len() > 0 ==> (ns.len() == 0 || !(ns[0] is Literal)),
        0 <= pos,
        pos + print_nodes(ns).len() <= chars.len(),
        chars.subrange(pos, pos + print_nodes(ns).len()) == print_nodes(ns),
        in_group ==> pos + print_nodes(ns).len() < chars.len() && chars[pos + print_nodes(
            ns,
        ).len()] == ']',
        !in_group ==> pos + print_nodes(ns).len() == chars.len(),
    ensures
        parse_from(chars, pos, in_group, lit, acc) == Ok::<(Seq<Node>, int), crate::format::ParseFailure>(
            (flush(acc, lit) + ns, pos + print_nodes(ns).len()),
        ),
    decreases ns,
{
    let q = pos + print_nodes(ns).len();
    if ns.len() == 0 {
        assert(flush(acc, lit) + ns == flush(acc, lit));
    } else {
        let first = ns[0];
        let rest = ns.drop_first();
        let pf = print_node(first);
        let m = pf.len() as int;
        assert(print_nodes(ns) == pf + print_nodes(rest));
        assert(chars.subrange(pos, pos + m) == pf) by {
            assert(chars.subrange(pos, pos + m) == chars.subrange(pos, q).subrange(0, m));
        }
        assert(chars.subrange(pos + m, pos + m + print_nodes(rest).len()) == print_nodes(rest)) by {
            assert(chars.subrange(pos + m, pos + m + print_nodes(rest).len()) == chars.subrange(
                pos,
                q,
            ).subrange(m, m + print_nodes(rest).len()));
        }
        assert(nodes_wf(rest));
        match first {
            Node::Literal(t) => {
                assert(lit.len() == 0);
                assert(node_wf(ns[0]));
                assert(t.len() > 0);
                lemma_scan_literal(chars, pos, in_group, lit, acc, t);
                assert(lit + t == t);
                if rest.len() > 0 {
                    assert(ns[1] == rest[0]);
                }
                lemma_parse_printed(chars, pos + m, in_group, t, acc, rest);
                assert(flush(acc, t) + rest == flush(acc, lit) + ns);
            },
            Node::Field(f) => {
                let key = field_key(f);
                lemma_field_key(f);
                assert(pf == seq!['%'] + key + seq!['%']);
                assert(chars[pos] == pf[0]);
                let end = pos + 1 + key.len();
                assert(chars[end] == pf[m - 1]);
                assert forall|k: int| pos + 1 <= k < end implies chars[k] != '%' by {
                    assert(chars[k] == pf[k - pos]);
                    assert(pf[k - pos] == key[k - pos - 1]);
                }
                lemma_percent_at(chars, pos + 1, end);
                assert(chars.subrange(pos + 1, end) == key) by {
                    assert(chars.subrange(pos + 1, end) == chars.subrange(pos, pos + m).subrange(
                        1,
                        1 + key.len() as int,
                    ));
                    assert(pf.subrange(1, 1 + key.len() as int) == key);
                }
                let acc2 = flush(acc, lit).push(Node::Field(f));
                lemma_parse_printed(chars, end + 1, in_group, Seq::empty(), acc2, rest);
                assert(flush(acc2, Seq::empty()) == acc2);
                assert(acc2 + rest == flush(acc, lit) + ns);
            },
            Node::Optional(inner) => {
                let pi = print_nodes(inner);
                assert(pf == seq!['['] + pi + seq![']']);
                assert(chars[pos] == pf[0]);
                let p = pos + 1 + pi.len();
                assert(chars[p] == pf[m - 1]);
                assert(chars.subrange(pos + 1, p) == pi) by {
                    assert(chars.subrange(pos + 1, p) == chars.subrange(pos, pos + m).subrange(
                        1,
                        1 + pi.len() as int,
                    ));
                    assert(pf.subrange(1, 1 + pi.len() as int) == pi);
                }
                assert(node_wf(ns[0]));
                assert(nodes_wf(inner));
                assert(decreases_to!(ns => first));
                lemma_parse_printed(chars, pos + 1, true, Seq::empty(), Seq::empty(), inner);
                assert(flush(Seq::<Node>::empty(), Seq::empty()) + inner == inner);
                let acc2 = flush(acc, lit).push(Node::Optional(inner));
                lemma_parse_printed(chars, p + 1, in_group, Seq::empty(), acc2, rest);
                assert(flush(acc2, Seq::empty()) == acc2);
                assert(acc2 + rest == flush(acc, lit) + ns);
            },
        }
    }
}

/// Printing a well-formed node list gives a format string that parses back
/// to exactly that list: `parse(&expr.to_string()) == Ok(expr)`.
pub proof fn law_print_parse_round_trip(ns: Seq<Node>)
    requires
        nodes_wf(ns),
    ensures
        parse_text(print_nodes(ns)) == Ok::<Seq<Node>, crate::format::ParseFailure>(ns),
{
    let chars = print_nodes(ns);
    assert(chars.subrange(0, chars.len() as int) == chars);
    lemma_parse_printed(chars, 0, false, Seq::empty(), Seq::empty(), ns);
    assert(flush(Seq::<Node>::empty(), Seq::empty()) + ns == ns);
}

/// The `%track%` placeholder shows the track number, and only it: for
/// every track with a known track number its text reads back as that
/// number, and two tracks with the same track number show the same text
/// whatever their disc numbers and other fields.
pub proof fn law_track_placeholder_shows_the_track_number(t: Track, u: Track)
    requires
        t.track_number@ != 0,
    ensures
        integer_text(field_text(TrackField::TrackNumber, t), false) == Some(t.track_number@ as int),
        u.track_number == t.track_number ==> field_text(TrackField::TrackNumber, u) == field_text(
            TrackField::TrackNumber,
            t,
        ),
{
    lemma_decimal_parses(t.track_number@ as nat);
}

} // verus!
