use vstd::prelude::*;
use vstd::bytes::{spec_u64_from_le_bytes, spec_u64_to_le_bytes, lemma_auto_spec_u64_to_from_le_bytes};
use vstd::utf8::{decode_utf8, encode_utf8, valid_utf8};

verus! {

// ---------------------------------------------------------------------------
// The embedded-payload frame format.
//
// An artifact is a runtime image followed by a LIFO sequence of frames and a
// terminal magic marker.  A frame is either a raw fixed-width value (one byte
// for a boolean, eight little-endian bytes for a length or count) or a
// length-suffixed block (payload bytes followed by their length).  The format
// carries no type tags: writer and reader agree out of band on the exact
// order of frames.  The `push_*` functions below are the mathematical model
// of the writer; the `pop_*` functions are the model of the reader.
// ---------------------------------------------------------------------------

/// Byte width of a raw length or count frame.
pub const SIZE_LEN: usize = 8;

/// Byte width of the terminal magic marker.
pub const TRAILER_LEN: usize = 8;

/// The constant magic marker appended as the true final bytes of every
/// packaged artifact, and recognized (and stripped) by the loader.
pub open spec fn trailer_spec() -> Seq<u8> {
    seq![0x44u8, 0x45u8, 0x55u8, 0x54u8, 0x52u8, 0x4fu8, 0x4eu8, 0x21u8]
}

/// The magic marker as an executable value.
pub fn trailer_bytes() -> (r: Vec<u8>)
    ensures
        r@ == trailer_spec(),
{
    let mut v: Vec<u8> = Vec::new();
    v.push(0x44);
    v.push(0x45);
    v.push(0x55);
    v.push(0x54);
    v.push(0x52);
    v.push(0x4f);
    v.push(0x4e);
    v.push(0x21);
    proof {
        assert(v@ =~= trailer_spec());
    }
    v
}

// ---------------------------------------------------------------------------
// Writer model.
// ---------------------------------------------------------------------------

/// Append a raw eight-byte little-endian unsigned integer.
pub open spec fn push_u64(s: Seq<u8>, n: u64) -> Seq<u8> {
    s + spec_u64_to_le_bytes(n)
}

/// Append a raw one-byte boolean.
pub open spec fn push_flag(s: Seq<u8>, b: bool) -> Seq<u8> {
    s.push(if b { 1u8 } else { 0u8 })
}

/// Append a length-suffixed block: the payload bytes, then their length.
pub open spec fn push_data(s: Seq<u8>, d: Seq<u8>) -> Seq<u8>
    recommends
        d.len() <= u64::MAX,
{
    push_u64(s + d, d.len() as u64)
}

/// Append a string as a length-suffixed block of its UTF-8 bytes.
pub open spec fn push_string(s: Seq<u8>, t: Seq<char>) -> Seq<u8> {
    push_data(s, encode_utf8(t))
}

/// Append every string of the list, last first, so that the reader pops them
/// back in the list's own order.
pub open spec fn push_string_list(s: Seq<u8>, l: Seq<Seq<char>>) -> Seq<u8>
    decreases l.len(),
{
    if l.len() == 0 {
        s
    } else {
        push_string_list(push_string(s, l.last()), l.drop_last())
    }
}

/// Append a list of strings: the string blocks, then a raw element count.
pub open spec fn push_strings(s: Seq<u8>, l: Seq<Seq<char>>) -> Seq<u8>
    recommends
        l.len() <= u64::MAX,
{
    push_u64(push_string_list(s, l), l.len() as u64)
}

/// Append the terminal magic marker.
pub open spec fn push_trailer(s: Seq<u8>) -> Seq<u8> {
    s + trailer_spec()
}

// ---------------------------------------------------------------------------
// Reader model.
// ---------------------------------------------------------------------------

/// True when a raw eight-byte integer can be popped.
pub open spec fn u64_ready(s: Seq<u8>) -> bool {
    s.len() >= SIZE_LEN
}

/// Remove and interpret the last eight bytes as a little-endian integer.
/// Result: (remaining buffer, the integer).
pub open spec fn pop_u64(s: Seq<u8>) -> (Seq<u8>, u64)
    recommends
        u64_ready(s),
{
    (
        s.subrange(0, s.len() - SIZE_LEN),
        spec_u64_from_le_bytes(s.subrange(s.len() - SIZE_LEN, s.len() as int)),
    )
}

/// True when a length-suffixed block can be popped: the trailing length is
/// present and no larger than what precedes it.
pub open spec fn data_ready(s: Seq<u8>) -> bool {
    u64_ready(s) && pop_u64(s).1 <= pop_u64(s).0.len()
}

/// Remove a length-suffixed block.  Result: (remaining buffer, the payload).
pub open spec fn pop_data(s: Seq<u8>) -> (Seq<u8>, Seq<u8>)
    recommends
        data_ready(s),
{
    let (rest, n) = pop_u64(s);
    (rest.subrange(0, rest.len() - n), rest.subrange(rest.len() - n, rest.len() as int))
}

/// True when a raw one-byte boolean can be popped.
pub open spec fn flag_ready(s: Seq<u8>) -> bool {
    s.len() >= 1
}

/// Remove a raw one-byte boolean; any non-zero byte reads as true.
pub open spec fn pop_flag(s: Seq<u8>) -> (Seq<u8>, bool)
    recommends
        flag_ready(s),
{
    (s.drop_last(), s.last() != 0u8)
}

/// Remove `n` strings, each a length-suffixed block of valid UTF-8, in pop
/// order.  `None` when the buffer does not hold `n` such blocks.
/// Result: (remaining buffer, the strings in the order the reader saw them).
pub open spec fn pop_string_list(s: Seq<u8>, n: nat) -> Option<(Seq<u8>, Seq<Seq<char>>)>
    decreases n,
{
    if n == 0 {
        Some((s, Seq::<Seq<char>>::empty()))
    } else if data_ready(s) && valid_utf8(pop_data(s).1) {
        match pop_string_list(pop_data(s).0, (n - 1) as nat) {
            Some(p) => Some((p.0, seq![decode_utf8(pop_data(s).1)] + p.1)),
            None => None,
        }
    } else {
        None
    }
}

/// True when the buffer ends with the magic marker.
pub open spec fn trailer_present(s: Seq<u8>) -> bool {
    s.len() >= TRAILER_LEN && s.subrange(s.len() - TRAILER_LEN, s.len() as int)
        == trailer_spec()
}

// ---------------------------------------------------------------------------
// The reader inverts the writer.
// ---------------------------------------------------------------------------

/// Popping a raw integer recovers what was pushed, and the buffer before it.
pub proof fn lemma_pop_push_u64(s: Seq<u8>, n: u64)
    ensures
        u64_ready(push_u64(s, n)),
        pop_u64(push_u64(s, n)) == (s, n),
{
    lemma_auto_spec_u64_to_from_le_bytes();
    let t = push_u64(s, n);
    assert(t.subrange(t.len() - SIZE_LEN, t.len() as int) =~= spec_u64_to_le_bytes(n));
    assert(t.subrange(0, t.len() - SIZE_LEN) =~= s);
}

/// Popping a block recovers the pushed payload, and the buffer before it.
pub proof fn lemma_pop_push_data(s: Seq<u8>, d: Seq<u8>)
    requires
        d.len() <= u64::MAX,
    ensures
        data_ready(push_data(s, d)),
        pop_data(push_data(s, d)) == (s, d),
{
    lemma_pop_push_u64(s + d, d.len() as u64);
    let (rest, n) = pop_u64(push_data(s, d));
    assert(rest =~= s + d);
    assert(rest.subrange(0, rest.len() - n) =~= s);
    assert(rest.subrange(rest.len() - n, rest.len() as int) =~= d);
}

/// Popping a raw boolean recovers what was pushed.
pub proof fn lemma_pop_push_flag(s: Seq<u8>, b: bool)
    ensures
        flag_ready(push_flag(s, b)),
        pop_flag(push_flag(s, b)) == (s, b),
{
    assert(push_flag(s, b).drop_last() =~= s);
}

/// A non-empty string list pushes its first element outermost: what the
/// reader pops first is the list's first string.
proof fn lemma_push_string_list_front(s: Seq<u8>, l: Seq<Seq<char>>)
    requires
        l.len() > 0,
    ensures
        push_string_list(s, l) == push_string(push_string_list(s, l.drop_first()), l.first()),
    decreases l.len(),
{
    if l.len() == 1 {
        assert(l.drop_last() =~= Seq::<Seq<char>>::empty());
        assert(l.drop_first() =~= Seq::<Seq<char>>::empty());
        assert(l.last() == l.first());
        assert(push_string_list(s, l) == push_string_list(push_string(s, l.last()), l.drop_last()));
        assert(push_string_list(push_string(s, l.last()), l.drop_last()) == push_string(
            s,
            l.last(),
        ));
        assert(push_string_list(s, l.drop_first()) == s);
    } else {
        let s1 = push_string(s, l.last());
        lemma_push_string_list_front(s1, l.drop_last());
        // push_string_list(s, l) unfolds from the last element:
        assert(push_string_list(s, l) == push_string_list(s1, l.drop_last()));
        assert(l.drop_last().len() > 0);
        assert(l.drop_last().first() == l.first());
        assert(push_string_list(s1, l.drop_last()) == push_string(
            push_string_list(s1, l.drop_last().drop_first()),
            l.first(),
        ));
        assert(l.drop_last().drop_first() =~= l.drop_first().drop_last());
        assert(l.drop_first().last() == l.last());
        assert(l.drop_first().len() > 0);
        // and push_string_list(s, l.drop_first()) unfolds from its last element:
        assert(push_string_list(s, l.drop_first()) == push_string_list(
            s1,
            l.drop_first().drop_last(),
        ));
    }
}

/// Popping `n` strings recovers the `n` pushed strings, in order, and the
/// buffer before them.
pub proof fn lemma_pop_push_string_list(s: Seq<u8>, l: Seq<Seq<char>>)
    requires
        forall|i: int| 0 <= i < l.len() ==> #[trigger] encode_utf8(l[i]).len() <= u64::MAX,
    ensures
        pop_string_list(push_string_list(s, l), l.len()) == Some((s, l)),
    decreases l.len(),
{
    broadcast use vstd::utf8::group_utf8_lib;

    if l.len() == 0 {
        assert(pop_string_list(s, 0) == Some((s, Seq::<Seq<char>>::empty())));
    } else {
        lemma_push_string_list_front(s, l);
        let mid = push_string_list(s, l.drop_first());
        let t = push_string(mid, l.first());
        assert(encode_utf8(l.first()).len() <= u64::MAX);
        lemma_pop_push_data(mid, encode_utf8(l.first()));
        assert(forall|i: int|
            0 <= i < l.drop_first().len() ==> #[trigger] encode_utf8(l.drop_first()[i]).len()
                <= u64::MAX);
        lemma_pop_push_string_list(s, l.drop_first());
        assert(pop_data(t).1 == encode_utf8(l.first()));
        assert(decode_utf8(encode_utf8(l.first())) == l.first());
        assert(seq![l.first()] + l.drop_first() =~= l);
    }
}

/// The marker is recognized at the end of what the writer finalized, and
/// stripping it recovers the buffer before it.
pub proof fn lemma_pop_push_trailer(s: Seq<u8>)
    ensures
        trailer_present(push_trailer(s)),
        push_trailer(s).subrange(0, push_trailer(s).len() - TRAILER_LEN) == s,
{
    let t = push_trailer(s);
    assert(t.subrange(t.len() - TRAILER_LEN, t.len() as int) =~= trailer_spec());
    assert(t.subrange(0, t.len() - TRAILER_LEN) =~= s);
}

/// A whole artifact in the packager's order: onto the runtime image go the
/// packed-files block, the three launch flags, the version string, the
/// backend command line, and the marker.
pub open spec fn artifact(
    base: Seq<u8>,
    pack: Seq<u8>,
    verbose: bool,
    no_cache: bool,
    dev_tools: bool,
    version: Seq<char>,
    cmds: Seq<Seq<char>>,
) -> Seq<u8> {
    push_trailer(
        push_strings(
            push_string(
                push_flag(push_flag(push_flag(push_data(base, pack), verbose), no_cache), dev_tools),
                version,
            ),
            cmds,
        ),
    )
}

/// Round trip over a whole artifact: popping in the loader's reverse order
/// recovers, byte-exactly, every value the packager pushed — for any payload,
/// including empty strings, zero-length blobs and zero-element lists.  Each
/// conjunct names the intermediate buffer the corresponding pop leaves
/// behind, so the pops chain from the marker all the way down to the image.
pub proof fn lemma_artifact_round_trip(
    base: Seq<u8>,
    pack: Seq<u8>,
    verbose: bool,
    no_cache: bool,
    dev_tools: bool,
    version: Seq<char>,
    cmds: Seq<Seq<char>>,
)
    requires
        pack.len() <= u64::MAX,
        encode_utf8(version).len() <= u64::MAX,
        cmds.len() <= u64::MAX,
        forall|i: int| 0 <= i < cmds.len() ==> #[trigger] encode_utf8(cmds[i]).len() <= u64::MAX,
    ensures
        ({
            let s6 = push_data(base, pack);
            let s5 = push_flag(s6, verbose);
            let s4 = push_flag(s5, no_cache);
            let s3 = push_flag(s4, dev_tools);
            let s2 = push_string(s3, version);
            let s1 = push_string_list(s2, cmds);
            let s0 = push_u64(s1, cmds.len() as u64);
            let a = artifact(base, pack, verbose, no_cache, dev_tools, version, cmds);
            &&& a == push_trailer(s0)
            &&& trailer_present(a)
            &&& a.subrange(0, a.len() - TRAILER_LEN) == s0
            &&& u64_ready(s0)
            &&& pop_u64(s0) == (s1, cmds.len() as u64)
            &&& pop_string_list(s1, cmds.len()) == Some((s2, cmds))
            &&& data_ready(s2)
            &&& valid_utf8(pop_data(s2).1)
            &&& decode_utf8(pop_data(s2).1) == version
            &&& pop_data(s2).0 == s3
            &&& flag_ready(s3)
            &&& pop_flag(s3) == (s4, dev_tools)
            &&& flag_ready(s4)
            &&& pop_flag(s4) == (s5, no_cache)
            &&& flag_ready(s5)
            &&& pop_flag(s5) == (s6, verbose)
            &&& data_ready(s6)
            &&& pop_data(s6) == (base, pack)
        }),
{
    broadcast use vstd::utf8::group_utf8_lib;

    let s6 = push_data(base, pack);
    let s5 = push_flag(s6, verbose);
    let s4 = push_flag(s5, no_cache);
    let s3 = push_flag(s4, dev_tools);
    let s2 = push_string(s3, version);
    let s1 = push_string_list(s2, cmds);
    let s0 = push_u64(s1, cmds.len() as u64);
    lemma_pop_push_trailer(s0);
    lemma_pop_push_u64(s1, cmds.len() as u64);
    lemma_pop_push_string_list(s2, cmds);
    lemma_pop_push_data(s3, encode_utf8(version));
    lemma_pop_push_flag(s4, dev_tools);
    lemma_pop_push_flag(s5, no_cache);
    lemma_pop_push_flag(s6, verbose);
    lemma_pop_push_data(base, pack);
}

} // verus!
