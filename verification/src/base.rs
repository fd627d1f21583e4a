use vstd::prelude::*;

use crate::embed_error::EmbedError;
use crate::frames::{
    push_data, push_flag, push_string, push_string_list, push_strings, push_trailer, push_u64,
    trailer_bytes,
};

verus! {

/// Write side of the embedded-payload format: a copy of a prebuilt runtime
/// image onto whose tail the packager appends frames, and finally the magic
/// marker.
pub struct Base(Vec<u8>);

impl View for Base {
    type V = Seq<u8>;

    closed spec fn view(&self) -> Seq<u8> {
        self.0@
    }
}

impl Base {
    /// Start from the bytes of a prebuilt runtime image.
    pub fn new(image: Vec<u8>) -> (r: Base)
        ensures
            r@ == image@,
    {
        Base(image)
    }

    /// Append a raw eight-byte little-endian integer frame.
    fn add_u64(&mut self, n: u64)
        ensures
            final(self)@ == push_u64(old(self)@, n),
    {
        let mut tail = vstd::bytes::u64_to_le_bytes(n);
        self.0.append(&mut tail);
    }

    /// Append a raw one-byte boolean frame.
    pub fn add_flag(&mut self, flag: bool)
        ensures
            final(self)@ == push_flag(old(self)@, flag),
    {
        self.0.push(if flag { 1 } else { 0 });
    }

    /// Append a length-suffixed block: the payload, then its byte length.
    pub fn add_data(&mut self, data: &[u8])
        ensures
            final(self)@ == push_data(old(self)@, data@),
    {
        let ghost s0 = self@;
        let mut i: usize = 0;
        while i < data.len()
            invariant
                i <= data@.len(),
                self@ == s0 + data@.subrange(0, i as int),
            decreases data@.len() - i,
        {
            let b = data[i];
            self.0.push(b);
            proof {
                assert(self@ =~= s0 + data@.subrange(0, i + 1));
            }
            i = i + 1;
        }
        proof {
            assert(self@ =~= s0 + data@);
        }
        self.add_u64(data.len() as u64);
    }

    /// Append the packed-directory archive as one length-suffixed block.
    /// Producing the archive from a directory or file is the archive packer's
    /// job; here its bytes are stapled on like any other block.
    pub fn add_pack(&mut self, pack: &[u8])
        ensures
            final(self)@ == push_data(old(self)@, pack@),
    {
        self.add_data(pack);
    }

    /// Append a string as a length-suffixed block of its UTF-8 bytes.
    pub fn add_string(&mut self, text: &str)
        ensures
            final(self)@ == push_string(old(self)@, text@),
    {
        let bytes = text.as_bytes();
        self.add_data(bytes);
    }

    /// Append a list of strings: each string pushed last-first so the loader
    /// pops them back in the list's own order, then a raw element count.
    pub fn add_strings(&mut self, list: Vec<String>)
        ensures
            final(self)@ == push_strings(old(self)@, list.deep_view()),
    {
        let count = list.len();
        let ghost l0 = list.deep_view();
        let ghost s0 = self@;
        let mut l = list;
        while l.len() > 0
            invariant
                push_string_list(self@, l.deep_view()) == push_string_list(s0, l0),
                l.deep_view().len() == l@.len(),
            decreases l@.len(),
        {
            let ghost dv_before = l.deep_view();
            let entry = l.pop().unwrap();
            proof {
                assert(l.deep_view() =~= dv_before.drop_last());
                assert(entry@ == dv_before.last());
            }
            self.add_string(entry.as_str());
        }
        proof {
            assert(l.deep_view() =~= Seq::<Seq<char>>::empty());
        }
        self.add_u64(count as u64);
    }

    /// Append the terminal magic marker; called exactly once, last, when
    /// finalizing an artifact.
    pub fn add_trailer(&mut self)
        ensures
            final(self)@ == push_trailer(old(self)@),
    {
        let mut t = trailer_bytes();
        self.0.append(&mut t);
    }

    /// Patch the runtime image's icon.  Only a Windows image can carry an
    /// icon resource, and this build does not target one, so the request is
    /// rejected and the image is left untouched.
    pub fn set_icon(&mut self, _icon_path: &str) -> (r: Result<(), EmbedError>)
        ensures
            final(self)@ == old(self)@,
            r matches Err(e) && e.0@ == "Not supported for targets other then windows"@,
    {
        Err(EmbedError("Not supported for targets other then windows".to_owned()))
    }

    /// Hide the console of a Windows runtime image by switching its PE
    /// header to the GUI subsystem.  A byte sequence that does not parse as
    /// a PE image is rejected and left untouched.
    pub fn disable_terminal(&mut self) -> (r: Result<(), EmbedError>)
        ensures
            r is Ok <==> pe_parses(old(self)@),
            r is Ok ==> final(self)@ == gui_image_of(old(self)@),
            r matches Err(e) ==> final(self)@ == old(self)@ && e.0@
                == "Unable to read executable"@,
    {
        match patch_subsystem_gui(&self.0) {
            Ok(d) => {
                self.0 = d;
                Ok(())
            },
            Err(e) => Err(e),
        }
    }

    /// Hand the finished artifact bytes to whoever writes them out.
    pub fn into_bytes(self) -> (r: Vec<u8>)
        ensures
            r@ == self@,
    {
        self.0
    }
}

/// Whether these bytes parse as a portable-executable image.
pub uninterp spec fn pe_parses(s: Seq<u8>) -> bool;

/// The image serialized back after its subsystem header field is set to the
/// Windows GUI subsystem.
pub uninterp spec fn gui_image_of(s: Seq<u8>) -> Seq<u8>;

/// Relies on editpe's Image::parse, Image::set_subsystem and Image::data:
/// parse the PE image, set the Windows GUI subsystem, and serialize the
/// image back.  The result depends on the image bytes alone.
#[verifier::external_body]
fn patch_subsystem_gui(data: &Vec<u8>) -> (r: Result<Vec<u8>, EmbedError>)
    ensures
        r is Ok <==> pe_parses(data@),
        r matches Ok(d) ==> d@ == gui_image_of(data@),
        r matches Err(e) ==> e.0@ == "Unable to read executable"@,
{
    match editpe::Image::parse(data.as_slice()) {
        Ok(mut image) => {
            image.set_subsystem(2);
            Ok(image.data().to_vec())
        },
        Err(_) => Err(EmbedError("Unable to read executable".to_owned())),
    }
}

} // verus!
