//! Arguments that name where to write to.
use vstd::prelude::*;
use vstd::utf8::encode_utf8;

use crate::model::{hyphen, is_sentinel, shown_text, ArgModel};
use crate::platform::{lossy_string, path_buf_bytes, path_bytes};
use std::path::{Path, PathBuf};

verus! {

/// An output argument: standard output, or a file system path held as its
/// raw platform text.
#[derive(Clone, Debug, PartialEq, Eq, Hash, PartialOrd, Ord)]
pub enum OutputArg {
    /// Standard output; the default.
    Stdout,
    /// A file system path.
    Path(Vec<u8>),
}

impl View for OutputArg {
    type V = ArgModel;

    open spec fn view(&self) -> ArgModel {
        match self {
            OutputArg::Stdout => ArgModel::Stream,
            OutputArg::Path(p) => ArgModel::Path(p@),
        }
    }
}

impl OutputArg {
    /// Classifies raw platform text: exactly `-` is standard output, any
    /// other text is a path kept verbatim.
    pub fn from_raw(arg: Vec<u8>) -> (r: OutputArg)
        ensures
            r@ == ArgModel::parse(arg@),
            arg@ != hyphen() ==> r == OutputArg::Path(arg),
    {
        if is_sentinel(arg.as_slice()) {
            OutputArg::Stdout
        } else {
            OutputArg::Path(arg)
        }
    }

    /// Classifies a text token, usually a command-line argument: exactly
    /// `"-"` is standard output, any other text is a path.
    pub fn from_arg(arg: &str) -> (r: OutputArg)
        ensures
            r@ == ArgModel::parse(encode_utf8(arg@)),
    {
        OutputArg::from_raw(vstd::slice::slice_to_vec(arg.as_bytes()))
    }

    /// Whether this is standard output.
    pub fn is_stdout(&self) -> (r: bool)
        ensures
            r == (self is Stdout),
    {
        match self {
            OutputArg::Stdout => true,
            OutputArg::Path(_) => false,
        }
    }

    /// Whether this is a path.
    pub fn is_path(&self) -> (r: bool)
        ensures
            r == (self is Path),
    {
        match self {
            OutputArg::Stdout => false,
            OutputArg::Path(_) => true,
        }
    }

    /// The path, or `None` for standard output.
    pub fn path_ref(&self) -> (r: Option<&Vec<u8>>)
        ensures
            r is None <==> self is Stdout,
            r matches Some(p) ==> *self == OutputArg::Path(*p),
    {
        match self {
            OutputArg::Stdout => None,
            OutputArg::Path(p) => Some(p),
        }
    }

    /// The path, mutably, or `None` for standard output.
    pub fn path_mut(&mut self) -> (r: Option<&mut Vec<u8>>)
        ensures
            *old(self) is Stdout ==> r is None && *final(self) == *old(self),
            *old(self) is Path ==> r is Some && *r->0 == (*old(self))->Path_0
                && *final(self) == OutputArg::Path(*final(r->0)),
    {
        match self {
            OutputArg::Stdout => None,
            OutputArg::Path(p) => Some(p),
        }
    }

    /// Consumes the argument and returns its path, or `None` for standard
    /// output.
    pub fn into_path(self) -> (r: Option<Vec<u8>>)
        ensures
            r is None <==> self is Stdout,
            r matches Some(p) ==> self == OutputArg::Path(p),
    {
        match self {
            OutputArg::Stdout => None,
            OutputArg::Path(p) => Some(p),
        }
    }

    /// Consumes the argument and returns the raw text that it was parsed
    /// from: `-` for standard output, the path's text otherwise.
    pub fn into_raw(self) -> (r: Vec<u8>)
        ensures
            r@ == self@.raw_text(),
            self matches OutputArg::Path(p) ==> r == p,
    {
        match self {
            OutputArg::Stdout => {
                let v: Vec<u8> = vec![45u8];
                assert(v@ =~= hyphen());
                v
            },
            OutputArg::Path(p) => p,
        }
    }

    /// The default rendering: `-` for standard output, which parses back to
    /// standard output, and the path's text shown as UTF-8 otherwise.
    pub fn to_string(&self) -> (r: String)
        ensures
            r@ == self@.display(),
    {
        match self {
            OutputArg::Stdout => {
                proof {
                    reveal_strlit("-");
                }
                "-".to_owned()
            },
            OutputArg::Path(p) => lossy_string(p.as_slice()),
        }
    }

    /// The alternate rendering, for messages to a person: `<stdout>` for
    /// standard output, the path's text shown as UTF-8 otherwise.
    pub fn to_string_alternate(&self) -> (r: String)
        ensures
            r@ == (match self@ {
                ArgModel::Stream => "<stdout>"@,
                ArgModel::Path(t) => shown_text(t),
            }),
    {
        match self {
            OutputArg::Stdout => "<stdout>".to_owned(),
            OutputArg::Path(p) => lossy_string(p.as_slice()),
        }
    }
}

impl Default for OutputArg {
    fn default() -> (r: OutputArg)
        ensures
            r is Stdout,
    {
        OutputArg::Stdout
    }
}

impl From<Vec<u8>> for OutputArg {
    fn from(arg: Vec<u8>) -> (r: OutputArg) {
        OutputArg::from_raw(arg)
    }
}

impl vstd::std_specs::convert::FromSpecImpl<Vec<u8>> for OutputArg {
    open spec fn obeys_from_spec() -> bool {
        true
    }

    open spec fn from_spec(arg: Vec<u8>) -> OutputArg {
        if arg@ == hyphen() {
            OutputArg::Stdout
        } else {
            OutputArg::Path(arg)
        }
    }
}

impl From<&str> for OutputArg {
    fn from(arg: &str) -> (r: OutputArg)
        ensures
            r@ == ArgModel::parse(encode_utf8(arg@)),
    {
        OutputArg::from_arg(arg)
    }
}

/// The result is a vector, which a specification cannot build from the
/// text: the contract stands on `from` itself, over the view.
impl vstd::std_specs::convert::FromSpecImpl<&str> for OutputArg {
    open spec fn obeys_from_spec() -> bool {
        false
    }

    open spec fn from_spec(arg: &str) -> OutputArg {
        arbitrary()
    }
}

impl From<String> for OutputArg {
    fn from(arg: String) -> (r: OutputArg)
        ensures
            r@ == ArgModel::parse(encode_utf8(arg@)),
    {
        OutputArg::from_arg(arg.as_str())
    }
}

/// The result is a vector, which a specification cannot build from the
/// text: the contract stands on `from` itself, over the view.
impl vstd::std_specs::convert::FromSpecImpl<String> for OutputArg {
    open spec fn obeys_from_spec() -> bool {
        false
    }

    open spec fn from_spec(arg: String) -> OutputArg {
        arbitrary()
    }
}

impl From<PathBuf> for OutputArg {
    fn from(arg: PathBuf) -> (r: OutputArg) {
        OutputArg::from_raw(path_buf_bytes(arg))
    }
}

/// A path is opaque here, so nothing is stated of the result beyond what
/// `from_raw` does with the path's platform text, which is not modelled.
impl vstd::std_specs::convert::FromSpecImpl<PathBuf> for OutputArg {
    open spec fn obeys_from_spec() -> bool {
        false
    }

    open spec fn from_spec(arg: PathBuf) -> OutputArg {
        arbitrary()
    }
}

impl From<&Path> for OutputArg {
    fn from(arg: &Path) -> (r: OutputArg) {
        OutputArg::from_raw(path_bytes(arg))
    }
}

/// A path is opaque here, so nothing is stated of the result beyond what
/// `from_raw` does with the path's platform text, which is not modelled.
impl vstd::std_specs::convert::FromSpecImpl<&Path> for OutputArg {
    open spec fn obeys_from_spec() -> bool {
        false
    }

    open spec fn from_spec(arg: &Path) -> OutputArg {
        arbitrary()
    }
}

/// Every OutputArg is exactly one of standard output and a path.
pub proof fn lemma_stdout_or_path(a: OutputArg)
    ensures
        (a is Stdout) != (a is Path),
{
}

/// For an argument parsed from raw text, the path is absent exactly when
/// the text is `-`, and is otherwise the text itself.
pub proof fn lemma_parsed_path(t: Seq<u8>, a: OutputArg)
    requires
        a@ == ArgModel::parse(t),
    ensures
        a is Stdout <==> t == hyphen(),
        a matches OutputArg::Path(p) ==> p@ == t,
{
}

} // verus!
