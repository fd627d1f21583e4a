use vstd::prelude::*;
use vstd::utf8::{decode_utf8, valid_utf8};

use crate::app::App;
use crate::embed_error::EmbedError;
use crate::frames::{data_ready, pop_data, pop_flag, pop_string_list, pop_u64, u64_ready};

verus! {

/// How the runtime picks the icon a window is given.
pub enum WebviewIcon<'a> {
    Embedded(&'a [u8]),
    Path(String),
    Unset,
}

/// What a packaged runtime is asked on its command line; everything else
/// comes out of the artifact itself.
#[derive(Clone, Debug)]
pub struct Config {
    pub set_version: String,
    pub dev_tools: bool,
    pub terminal: bool,
    pub verbose: bool,
    pub out: Option<String>,
    pub pack_dir: String,
    pub command: Vec<String>,
}

/// What the loader pops back out of an artifact, short of the packed-files
/// archive that remains in the buffer behind it.
#[derive(Debug)]
pub struct Payload {
    /// The backend command line: program and arguments.
    pub command: Vec<String>,
    /// The version the artifact was stamped with.
    pub version: String,
    pub dev_tools: bool,
    pub no_cache: bool,
    pub verbose: bool,
}

/// The loader's order, in one place and mirroring the packager's in
/// reverse: pop the command-line list, the version string and the three
/// launch flags; what then remains of the buffer is the packed-files
/// archive block.  Any truncated or malformed frame is a fatal "corrupted
/// artifact" error.
pub fn take_payload(app: &mut App) -> (r: Result<Payload, EmbedError>)
    ensures
        ({
            let s0 = old(app)@;
            &&& (!u64_ready(s0) ==> r is Err)
            &&& (u64_ready(s0) ==> (match pop_string_list(pop_u64(s0).0, pop_u64(s0).1 as nat) {
                None => r is Err,
                Some(p2) => {
                    let s2 = p2.0;
                    let cmds = p2.1;
                    &&& (!data_ready(s2) ==> r is Err)
                    &&& (data_ready(s2) && !valid_utf8(pop_data(s2).1) ==> r is Err)
                    &&& (data_ready(s2) && valid_utf8(pop_data(s2).1) ==> {
                        let s3 = pop_data(s2).0;
                        if s3.len() >= 3 {
                            let s4 = pop_flag(s3).0;
                            let s5 = pop_flag(s4).0;
                            r matches Ok(p) && p.command.deep_view() == cmds && p.version@
                                == decode_utf8(pop_data(s2).1) && p.dev_tools == pop_flag(s3).1
                                && p.no_cache == pop_flag(s4).1 && p.verbose == pop_flag(s5).1
                                && final(app)@ == pop_flag(s5).0
                        } else {
                            r is Err
                        }
                    })
                },
            }))
        }),
{
    let command = match app.take_strings() {
        Ok(c) => c,
        Err(e) => {
            return Err(e);
        },
    };
    let version = match app.take_string() {
        Ok(v) => v,
        Err(e) => {
            return Err(e);
        },
    };
    let dev_tools = match app.take_flag() {
        Ok(b) => b,
        Err(e) => {
            return Err(e);
        },
    };
    let no_cache = match app.take_flag() {
        Ok(b) => b,
        Err(e) => {
            return Err(e);
        },
    };
    let verbose = match app.take_flag() {
        Ok(b) => b,
        Err(e) => {
            return Err(e);
        },
    };
    Ok(Payload { command, version, dev_tools, no_cache, verbose })
}

} // verus!
