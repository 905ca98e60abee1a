//! The engine's success payload and its transport encoding.
//!
//! A successful response crosses the call boundary as self-describing
//! structured text: the payload text is escaped and framed as
//! `{"text":"..."}`. The decoder is the encoder's exact inverse, which
//! `lemma_decode_encode` proves for every text. Only the quote and the
//! backslash are escaped: a text with control characters still round-trips
//! exactly, but its encoded form is then this crate's own framing rather
//! than strict JSON.
use vstd::prelude::*;
use vstd::string::*;

verus! {

/// The completed result the engine hands back for one request.
pub struct Payload {
    pub text: String,
}

/// Characters the encoding protects with a leading backslash.
pub open spec fn needs_escape(c: char) -> bool {
    c == '"' || c == '\\'
}

/// How one character appears inside the encoded text.
pub open spec fn escape_char(c: char) -> Seq<char> {
    if needs_escape(c) {
        seq!['\\', c]
    } else {
        seq![c]
    }
}

/// The escaped form of a whole text, one character at a time.
pub open spec fn escape(s: Seq<char>) -> Seq<char>
    decreases s.len(),
{
    if s.len() == 0 {
        Seq::empty()
    } else {
        escape(s.drop_last()) + escape_char(s.last())
    }
}

/// The opening frame of an encoded payload: `{"text":"`.
pub open spec fn header() -> Seq<char> {
    seq!['{', '"', 't', 'e', 'x', 't', '"', ':', '"']
}

/// The closing frame of an encoded payload: `"}`.
pub open spec fn footer() -> Seq<char> {
    seq!['"', '}']
}

/// The full encoded form of a payload text.
pub open spec fn encode_spec(t: Seq<char>) -> Seq<char> {
    header() + escape(t) + footer()
}

/// Read an escaped text up to its (unescaped) closing quote. Returns the
/// decoded text and whatever follows the quote; `None` when the input ends
/// before a closing quote or holds a backslash before an unprotected
/// character.
pub open spec fn unescape_prefix(s: Seq<char>) -> Option<(Seq<char>, Seq<char>)>
    decreases s.len(),
{
    if s.len() == 0 {
        None
    } else if s[0] == '"' {
        Some((Seq::empty(), s.skip(1)))
    } else if s[0] == '\\' {
        if s.len() >= 2 && needs_escape(s[1]) {
            match unescape_prefix(s.skip(2)) {
                Some(p) => Some((seq![s[1]] + p.0, p.1)),
                None => None,
            }
        } else {
            None
        }
    } else {
        match unescape_prefix(s.skip(1)) {
            Some(p) => Some((seq![s[0]] + p.0, p.1)),
            None => None,
        }
    }
}

/// What a well-formed encoding decodes to: the framed, unescaped text.
pub open spec fn decode_spec(s: Seq<char>) -> Option<Seq<char>> {
    if s.len() >= 9 && s.subrange(0, 9) == header() {
        match unescape_prefix(s.skip(9)) {
            Some(p) => if p.1 == seq!['}'] {
                Some(p.0)
            } else {
                None
            },
            None => None,
        }
    } else {
        None
    }
}

/// `escape` also peels one character from the left.
proof fn lemma_escape_left(t: Seq<char>)
    requires
        t.len() > 0,
    ensures
        escape(t) == escape_char(t[0]) + escape(t.skip(1)),
    decreases t.len(),
{
    if t.len() == 1 {
        assert(t.drop_last() =~= Seq::<char>::empty());
        assert(t.skip(1) =~= Seq::<char>::empty());
        assert(escape(t) =~= escape_char(t[0]) + escape(t.skip(1)));
    } else {
        lemma_escape_left(t.drop_last());
        assert(t.skip(1).drop_last() =~= t.drop_last().skip(1));
        assert(t.skip(1).last() == t.last());
        assert(escape(t.skip(1)) == escape(t.drop_last().skip(1)) + escape_char(t.last()));
        assert(escape(t) =~= escape_char(t[0]) + escape(t.skip(1)));
    }
}

/// Unescaping undoes escaping: reading an escaped text followed by its
/// closing quote yields the text back, with the tail untouched.
proof fn lemma_unescape_escape(t: Seq<char>, rest: Seq<char>)
    ensures
        unescape_prefix(escape(t) + seq!['"'] + rest) == Some((t, rest)),
    decreases t.len(),
{
    let s = escape(t) + seq!['"'] + rest;
    if t.len() == 0 {
        assert(s =~= seq!['"'] + rest);
        assert(s[0] == '"');
        assert(s.skip(1) =~= rest);
        assert(unescape_prefix(s) == Some((Seq::<char>::empty(), rest)));
        assert(t =~= Seq::<char>::empty());
    } else {
        lemma_escape_left(t);
        lemma_unescape_escape(t.skip(1), rest);
        let tail = escape(t.skip(1)) + seq!['"'] + rest;
        if needs_escape(t[0]) {
            assert(s =~= seq!['\\', t[0]] + tail);
            assert(s[0] == '\\' && s[1] == t[0]);
            assert(s.skip(2) =~= tail);
            assert(seq![t[0]] + t.skip(1) =~= t);
        } else {
            assert(s =~= seq![t[0]] + tail);
            assert(s[0] != '"' && s[0] != '\\');
            assert(s.skip(1) =~= tail);
            assert(seq![t[0]] + t.skip(1) =~= t);
        }
    }
}

/// Decoding inverts encoding: every payload text comes back from its
/// encoded form unchanged.
pub proof fn lemma_decode_encode(t: Seq<char>)
    ensures
        decode_spec(encode_spec(t)) == Some(t),
{
    let s = encode_spec(t);
    assert(s.subrange(0, 9) =~= header());
    assert(s.skip(9) =~= escape(t) + seq!['"'] + seq!['}']);
    lemma_unescape_escape(t, seq!['}']);
}

/// Encode a payload for the trip back across the call boundary.
pub fn encode_payload(p: &Payload) -> (r: String)
    ensures
        r@ == encode_spec(p.text@),
{
    let mut out: String = "{\"text\":\"".to_owned();
    proof {
        reveal_strlit("{\"text\":\"");
        assert(out@ =~= header());
    }
    let n = p.text.as_str().unicode_len();
    let mut i: usize = 0;
    while i < n
        invariant
            n == p.text@.len(),
            i <= n,
            out@ == header() + escape(p.text@.subrange(0, i as int)),
        decreases n - i,
    {
        let c = p.text.as_str().get_char(i);
        if c == '"' {
            out.append("\\\"");
            proof {
                reveal_strlit("\\\"");
                assert(("\\\"")@ =~= escape_char('"'));
            }
        } else if c == '\\' {
            out.append("\\\\");
            proof {
                reveal_strlit("\\\\");
                assert(("\\\\")@ =~= escape_char('\\'));
            }
        } else {
            let piece = p.text.as_str().substring_char(i, i + 1);
            out.append(piece);
            proof {
                assert(piece@ =~= escape_char(c));
            }
        }
        proof {
            let pre = p.text@.subrange(0, i as int);
            let cur = p.text@.subrange(0, i + 1 as int);
            assert(cur.drop_last() =~= pre);
            assert(cur.last() == c);
            assert(out@ =~= header() + escape(cur));
        }
        i += 1;
    }
    out.append("\"}");
    proof {
        reveal_strlit("\"}");
        assert(("\"}")@ =~= footer());
        assert(p.text@.subrange(0, n as int) =~= p.text@);
        assert(out@ =~= encode_spec(p.text@));
    }
    out
}

/// Decode an encoded payload. Returns `None` exactly on text that no
/// payload encodes to.
pub fn decode_payload(s: &str) -> (r: Option<Payload>)
    ensures
        match r {
            Some(p) => decode_spec(s@) == Some(p.text@),
            None => decode_spec(s@) is None,
        },
{
    let n = s.unicode_len();
    if n < 9 {
        return None;
    }
    let hdr: &str = "{\"text\":\"";
    proof {
        reveal_strlit("{\"text\":\"");
        assert(hdr@ =~= header());
    }
    let mut j: usize = 0;
    while j < 9
        invariant
            n == s@.len(),
            9 <= n,
            j <= 9,
            hdr@ == header(),
            forall|k: int| 0 <= k < j ==> s@[k] == header()[k],
        decreases 9 - j,
    {
        if s.get_char(j) != hdr.get_char(j) {
            proof {
                assert(s@.subrange(0, 9)[j as int] != header()[j as int]);
            }
            return None;
        }
        j += 1;
    }
    proof {
        assert(s@.subrange(0, 9) =~= header());
    }
    let mut out = String::new();
    let mut i: usize = 9;
    while i < n
        invariant
            n == s@.len(),
            9 <= i <= n,
            s@.subrange(0, 9) == header(),
            match unescape_prefix(s@.skip(i as int)) {
                Some(p) => unescape_prefix(s@.skip(9)) == Some((out@ + p.0, p.1)),
                None => unescape_prefix(s@.skip(9)) is None,
            },
        decreases n - i,
    {
        let c = s.get_char(i);
        if c == '"' {
            proof {
                let suf = s@.skip(i as int);
                assert(suf[0] == '"');
                assert(suf.skip(1) =~= s@.skip(i + 1 as int));
                assert(out@ + Seq::<char>::empty() =~= out@);
            }
            if n - i == 2 {
                let b = s.get_char(i + 1);
                if b == '}' {
                    proof {
                        assert(s@.skip(i + 1 as int) =~= seq!['}']);
                    }
                    return Some(Payload { text: out });
                }
                proof {
                    assert(s@.skip(i + 1 as int)[0] != '}');
                    assert(s@.skip(i + 1 as int) != seq!['}']);
                }
                return None;
            }
            proof {
                assert(s@.skip(i + 1 as int).len() != 1);
                assert(s@.skip(i + 1 as int) != seq!['}']);
            }
            return None;
        } else if c == '\\' {
            proof {
                let suf = s@.skip(i as int);
                assert(suf[0] == '\\');
            }
            if i + 1 < n {
                let d = s.get_char(i + 1);
                if d == '"' || d == '\\' {
                    let piece = s.substring_char(i + 1, i + 2);
                    out.append(piece);
                    proof {
                        let suf = s@.skip(i as int);
                        assert(suf.len() >= 2 && suf[1] == d && needs_escape(suf[1]));
                        assert(suf.skip(2) =~= s@.skip(i + 2 as int));
                        assert(piece@ =~= seq![d]);
                        match unescape_prefix(s@.skip(i + 2 as int)) {
                            Some(p) => {
                                assert((out@ + (seq![d] + p.0)) =~= ((out@ + seq![d]) + p.0));
                            },
                            None => {},
                        }
                    }
                    i += 2;
                } else {
                    proof {
                        let suf = s@.skip(i as int);
                        assert(suf.len() >= 2 && suf[1] == d && !needs_escape(suf[1]));
                    }
                    return None;
                }
            } else {
                proof {
                    let suf = s@.skip(i as int);
                    assert(suf.len() == 1);
                }
                return None;
            }
        } else {
            let piece = s.substring_char(i, i + 1);
            out.append(piece);
            proof {
                let suf = s@.skip(i as int);
                assert(suf[0] == c);
                assert(suf.skip(1) =~= s@.skip(i + 1 as int));
                assert(piece@ =~= seq![c]);
                match unescape_prefix(s@.skip(i + 1 as int)) {
                    Some(p) => {
                        assert((out@ + (seq![c] + p.0)) =~= ((out@ + seq![c]) + p.0));
                    },
                    None => {},
                }
            }
            i += 1;
        }
    }
    proof {
        assert(s@.skip(i as int) =~= Seq::<char>::empty());
    }
    None
}

} // verus!
