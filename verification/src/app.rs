use vstd::prelude::*;
use vstd::utf8::{decode_utf8, valid_utf8};

use crate::embed_error::EmbedError;
use crate::frames::{
    data_ready, flag_ready, pop_data, pop_flag, pop_string_list, pop_u64, trailer_present,
    trailer_bytes, u64_ready, SIZE_LEN, TRAILER_LEN,
};

verus! {

/// Relies on String::from_utf8: it succeeds exactly on valid UTF-8 input and
/// decodes the bytes per the UTF-8 scheme.
#[verifier::external_body]
fn bytes_to_string(v: Vec<u8>) -> (r: Result<String, EmbedError>)
    ensures
        r is Ok <==> valid_utf8(v@),
        r matches Ok(s) ==> s@ == decode_utf8(v@),
{
    match String::from_utf8(v) {
        Ok(s) => Ok(s),
        Err(_) => Err(EmbedError("Unable to parse data to string".to_owned())),
    }
}

/// A fatal "corrupted artifact" error: a frame was asked for that the
/// remaining buffer does not hold.
fn corrupted() -> (e: EmbedError)
    ensures
        e.0@ == "Corrupted artifact"@,
{
    EmbedError("Corrupted artifact".to_owned())
}

/// Compare the final bytes of `exe` against the magic marker; when they
/// match, strip them and report true; otherwise leave the buffer untouched
/// and report false.  A buffer shorter than the marker, or differing in any
/// byte, is not recognized.
pub fn take_trailer(exe: &mut Vec<u8>) -> (r: Result<bool, EmbedError>)
    ensures
        trailer_present(old(exe)@) ==> r == Ok::<bool, EmbedError>(true) && final(exe)@
            == old(exe)@.subrange(0, old(exe)@.len() - TRAILER_LEN),
        !trailer_present(old(exe)@) ==> r == Ok::<bool, EmbedError>(false) && final(exe)@
            == old(exe)@,
{
    if exe.len() < TRAILER_LEN {
        return Ok(false);
    }
    let t = trailer_bytes();
    let start = exe.len() - TRAILER_LEN;
    let mut i: usize = 0;
    while i < TRAILER_LEN
        invariant
            exe@ == old(exe)@,
            t@ == crate::frames::trailer_spec(),
            i <= TRAILER_LEN,
            start == exe@.len() - TRAILER_LEN,
            TRAILER_LEN <= exe@.len() <= usize::MAX,
            forall|j: int| 0 <= j < i ==> exe@[start + j] == t@[j],
        decreases TRAILER_LEN - i,
    {
        if exe[start + i] != t[i] {
            proof {
                assert(exe@.subrange(start as int, exe@.len() as int)[i as int] != t@[i as int]);
            }
            return Ok(false);
        }
        i = i + 1;
    }
    proof {
        assert(exe@.subrange(start as int, exe@.len() as int) =~= crate::frames::trailer_spec());
    }
    exe.truncate(start);
    Ok(true)
}

/// Read side of the embedded-payload format: the artifact's bytes with the
/// marker already stripped, consumed frame by frame from the tail.
pub struct App(Vec<u8>);

impl View for App {
    type V = Seq<u8>;

    closed spec fn view(&self) -> Seq<u8> {
        self.0@
    }
}

impl App {
    /// Recognize a packaged artifact from its own bytes: strip the marker, or
    /// fail with "not packaged" when the bytes are a bare runtime image.
    pub fn load(exe: Vec<u8>) -> (r: Result<App, EmbedError>)
        ensures
            trailer_present(exe@) ==> (r matches Ok(a) && a@ == exe@.subrange(
                0,
                exe@.len() - TRAILER_LEN,
            )),
            !trailer_present(exe@) ==> (r matches Err(e) && e.0@
                == "Application was not compiled"@),
    {
        let mut bytes = exe;
        let is_embedded = match take_trailer(&mut bytes) {
            Ok(b) => b,
            Err(e) => {
                return Err(e);
            },
        };
        if !is_embedded {
            return Err(EmbedError("Application was not compiled".to_owned()));
        }
        Ok(App(bytes))
    }

    /// Remove and interpret the last eight bytes as a little-endian integer.
    fn take_u64(&mut self) -> (r: Result<u64, EmbedError>)
        ensures
            u64_ready(old(self)@) ==> r == Ok::<u64, EmbedError>(pop_u64(old(self)@).1) && final(self)@ == pop_u64(old(self)@).0,
            !u64_ready(old(self)@) ==> r is Err && final(self)@ == old(self)@,
    {
        if self.0.len() < SIZE_LEN {
            return Err(corrupted());
        }
        let len = self.0.len();
        let tail = vstd::slice::slice_subrange(self.0.as_slice(), len - SIZE_LEN, len);
        let n = vstd::bytes::u64_from_le_bytes(tail);
        self.0.truncate(len - SIZE_LEN);
        Ok(n)
    }

    /// Remove a raw one-byte boolean frame; any non-zero byte reads as true.
    pub fn take_flag(&mut self) -> (r: Result<bool, EmbedError>)
        ensures
            flag_ready(old(self)@) ==> r == Ok::<bool, EmbedError>(pop_flag(old(self)@).1)
                && final(self)@ == pop_flag(old(self)@).0,
            !flag_ready(old(self)@) ==> r is Err && final(self)@ == old(self)@,
    {
        match self.0.pop() {
            Some(b) => Ok(b != 0),
            None => Err(corrupted()),
        }
    }

    /// Remove a length-suffixed block: pop the trailing length, then slice
    /// that many preceding bytes off as the payload.
    pub fn take_data(&mut self) -> (r: Result<Vec<u8>, EmbedError>)
        ensures
            data_ready(old(self)@) ==> (r matches Ok(d) && d@ == pop_data(old(self)@).1 && final(self)@ == pop_data(old(self)@).0),
            !data_ready(old(self)@) ==> r is Err && final(self)@ == old(self)@,
    {
        if self.0.len() < SIZE_LEN {
            return Err(corrupted());
        }
        let len = self.0.len();
        let tail = vstd::slice::slice_subrange(self.0.as_slice(), len - SIZE_LEN, len);
        let n = vstd::bytes::u64_from_le_bytes(tail);
        if n > (len - SIZE_LEN) as u64 {
            return Err(corrupted());
        }
        self.0.truncate(len - SIZE_LEN);
        let d = self.0.split_off(len - SIZE_LEN - (n as usize));
        Ok(d)
    }

    /// Remove a string frame: a length-suffixed block holding UTF-8 bytes.
    pub fn take_string(&mut self) -> (r: Result<String, EmbedError>)
        ensures
            !data_ready(old(self)@) ==> r is Err && final(self)@ == old(self)@,
            data_ready(old(self)@) ==> final(self)@ == pop_data(old(self)@).0,
            data_ready(old(self)@) && valid_utf8(pop_data(old(self)@).1) ==> (r matches Ok(s)
                && s@ == decode_utf8(pop_data(old(self)@).1)),
            data_ready(old(self)@) && !valid_utf8(pop_data(old(self)@).1) ==> r is Err,
    {
        let d = match self.take_data() {
            Ok(d) => d,
            Err(e) => {
                return Err(e);
            },
        };
        bytes_to_string(d)
    }

    /// Remove a string-list frame: a raw count, then that many string frames.
    pub fn take_strings(&mut self) -> (r: Result<Vec<String>, EmbedError>)
        ensures
            !u64_ready(old(self)@) ==> r is Err && final(self)@ == old(self)@,
            u64_ready(old(self)@) ==> (match pop_string_list(
                pop_u64(old(self)@).0,
                pop_u64(old(self)@).1 as nat,
            ) {
                Some(p) => r matches Ok(v) && v.deep_view() == p.1 && final(self)@ == p.0,
                None => r is Err,
            }),
    {
        let count = match self.take_u64() {
            Ok(n) => n,
            Err(e) => {
                return Err(e);
            },
        };
        let ghost s1 = self@;
        let mut out: Vec<String> = Vec::new();
        let mut i: u64 = 0;
        while i < count
            invariant
                i <= count,
                u64_ready(old(self)@),
                pop_u64(old(self)@).0 == s1,
                pop_u64(old(self)@).1 == count,
                out.deep_view().len() == i as nat,
                pop_string_list(s1, count as nat) == (match pop_string_list(
                    self@,
                    (count - i) as nat,
                ) {
                    Some(p) => Some((p.0, out.deep_view() + p.1)),
                    None => None::<(Seq<u8>, Seq<Seq<char>>)>,
                }),
            decreases count - i,
        {
            let ghost pre = self@;
            let ghost out_pre = out.deep_view();
            let s = match self.take_string() {
                Ok(s) => s,
                Err(e) => {
                    return Err(e);
                },
            };
            out.push(s);
            i = i + 1;
            proof {
                assert(out.deep_view() =~= out_pre.push(s@));
                if pop_string_list(self@, (count - i) as nat) is Some {
                    let p = pop_string_list(self@, (count - i) as nat)->Some_0;
                    assert(out_pre.push(s@) + p.1 =~= out_pre + (seq![s@] + p.1));
                }
            }
        }
        proof {
            if pop_string_list(self@, 0) is Some {
                let p = pop_string_list(self@, 0)->Some_0;
                assert(out.deep_view() + p.1 =~= out.deep_view());
            }
        }
        Ok(out)
    }

    /// Remove the packed-files archive block.  The caller reports whether the
    /// destination directory already exists and whether caching is on; when
    /// both hold, extraction is skipped and no payload is handed back.
    pub fn take_pack(&mut self, dest_exists: bool, cache: bool) -> (r: Result<
        Option<Vec<u8>>,
        EmbedError,
    >)
        ensures
            !data_ready(old(self)@) ==> r is Err && final(self)@ == old(self)@,
            data_ready(old(self)@) ==> final(self)@ == pop_data(old(self)@).0,
            data_ready(old(self)@) && cache && dest_exists ==> r == Ok::<
                Option<Vec<u8>>,
                EmbedError,
            >(None),
            data_ready(old(self)@) && !(cache && dest_exists) ==> (r matches Ok(o) && o matches Some(
                d,
            ) && d@ == pop_data(old(self)@).1),
    {
        let d = match self.take_data() {
            Ok(d) => d,
            Err(e) => {
                return Err(e);
            },
        };
        if cache && dest_exists {
            return Ok(None);
        }
        Ok(Some(d))
    }
}

} // verus!
