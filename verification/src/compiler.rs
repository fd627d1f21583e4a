use vstd::prelude::*;

use crate::base::Base;
use crate::frames::artifact;

verus! {

/// How the runtime picks the icon a window is given.
pub enum WebviewIcon<'a> {
    Embedded(&'a [u8]),
    Path(String),
    Unset,
}

/// Everything the packager is asked on its command line.
#[derive(Clone, Debug)]
pub struct Config {
    /// Run the backend directly instead of compiling an artifact.
    pub debug: bool,
    /// The output file of the artifact.
    pub out: Option<String>,
    /// The version stamped into the artifact.
    pub set_version: String,
    /// Keep a console attached on platforms that would hide it.
    pub terminal: bool,
    /// The directory (or file) packed into the artifact.
    pub pack_dir: String,
    /// Unpack on every boot instead of reusing a cached unpack.
    pub no_cache: bool,
    /// Allow the hosted pages to open a developer console.
    pub dev_tools: bool,
    /// Log all info and messages sent.
    pub verbose: bool,
    /// Compile for a given target platform instead of the host's.
    pub target: Option<String>,
    /// The command used to run the backend.
    pub command: Vec<String>,
}

/// The packager's order, in one place: onto the runtime image go the packed
/// archive of the packed directory, the three launch flags, the version
/// string, the backend command line, and finally the marker.  The loader
/// pops the same sequence in reverse.
pub fn embed(base: &mut Base, pack: &[u8], config: Config)
    ensures
        final(base)@ == artifact(
            old(base)@,
            pack@,
            config.verbose,
            config.no_cache,
            config.dev_tools,
            config.set_version@,
            config.command.deep_view(),
        ),
{
    base.add_pack(pack);
    base.add_flag(config.verbose);
    base.add_flag(config.no_cache);
    base.add_flag(config.dev_tools);
    base.add_string(config.set_version.as_str());
    base.add_strings(config.command);
    base.add_trailer();
}

} // verus!
