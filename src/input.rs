//! Arguments that name where to read from.
use vstd::prelude::*;
use vstd::utf8::encode_utf8;

use crate::model::{hyphen, is_sentinel, shown_text, ArgModel};
use crate::platform::{lossy_string, path_buf_bytes, path_bytes};
use std::path::{Path, PathBuf};

verus! {

/// An input argument: standard input, or a file system path held as its
/// raw platform text.
#[derive(Clone, Debug, PartialEq, Eq, Hash, PartialOrd, Ord)]
pub enum InputArg {
    /// Standard input; the default.
    Stdin,
    /// A file system path.
    Path(Vec<u8>),
}

impl View for InputArg {
    type V = ArgModel;

    open spec fn view(&self) -> ArgModel {
        match self {
            InputArg::Stdin => ArgModel::Stream,
            InputArg::Path(p) => ArgModel::Path(p@),
        }
    }
}

impl InputArg {
    /// Classifies raw platform text: exactly `-` is standard input, any
    /// other text is a path kept verbatim.
    pub fn from_raw(arg: Vec<u8>) -> (r: InputArg)
        ensures
            r@ == ArgModel::parse(arg@),
            arg@ != hyphen() ==> r == InputArg::Path(arg),
    {
        if is_sentinel(arg.as_slice()) {
            InputArg::Stdin
        } else {
            InputArg::Path(arg)
        }
    }

    /// Classifies a text token, usually a command-line argument: exactly
    /// `"-"` is standard input, any other text is a path.
    pub fn from_arg(arg: &str) -> (r: InputArg)
        ensures
            r@ == ArgModel::parse(encode_utf8(arg@)),
    {
        InputArg::from_raw(vstd::slice::slice_to_vec(arg.as_bytes()))
    }

    /// Whether this is standard input.
    pub fn is_stdin(&self) -> (r: bool)
        ensures
            r == (self is Stdin),
    {
        match self {
            InputArg::Stdin => true,
            InputArg::Path(_) => false,
        }
    }

    /// Whether this is a path.
    pub fn is_path(&self) -> (r: bool)
        ensures
            r == (self is Path),
    {
        match self {
            InputArg::Stdin => false,
            InputArg::Path(_) => true,
        }
    }

    /// The path, or `None` for standard input.
    pub fn path_ref(&self) -> (r: Option<&Vec<u8>>)
        ensures
            r is None <==> self is Stdin,
            r matches Some(p) ==> *self == InputArg::Path(*p),
    {
        match self {
            InputArg::Stdin => None,
            InputArg::Path(p) => Some(p),
        }
    }

    /// The path, mutably, or `None` for standard input.
    pub fn path_mut(&mut self) -> (r: Option<&mut Vec<u8>>)
        ensures
            *old(self) is Stdin ==> r is None && *final(self) == *old(self),
            *old(self) is Path ==> r is Some && *r->0 == (*old(self))->Path_0
                && *final(self) == InputArg::Path(*final(r->0)),
    {
        match self {
            InputArg::Stdin => None,
            InputArg::Path(p) => Some(p),
        }
    }

    /// Consumes the argument and returns its path, or `None` for standard
    /// input.
    pub fn into_path(self) -> (r: Option<Vec<u8>>)
        ensures
            r is None <==> self is Stdin,
            r matches Some(p) ==> self == InputArg::Path(p),
    {
        match self {
            InputArg::Stdin => None,
            InputArg::Path(p) => Some(p),
        }
    }

    /// Consumes the argument and returns the raw text that it was parsed
    /// from: `-` for standard input, the path's text otherwise.
    pub fn into_raw(self) -> (r: Vec<u8>)
        ensures
            r@ == self@.raw_text(),
            self matches InputArg::Path(p) ==> r == p,
    {
        match self {
            InputArg::Stdin => {
                let v: Vec<u8> = vec![45u8];
                assert(v@ =~= hyphen());
                v
            },
            InputArg::Path(p) => p,
        }
    }

    /// The default rendering: `-` for standard input, which parses back to
    /// standard input, and the path's text shown as UTF-8 otherwise.
    pub fn to_string(&self) -> (r: String)
        ensures
            r@ == self@.display(),
    {
        match self {
            InputArg::Stdin => {
                proof {
                    reveal_strlit("-");
                }
                "-".to_owned()
            },
            InputArg::Path(p) => lossy_string(p.as_slice()),
        }
    }

    /// The alternate rendering, for messages to a person: `<stdin>` for
    /// standard input, the path's text shown as UTF-8 otherwise.
    pub fn to_string_alternate(&self) -> (r: String)
        ensures
            r@ == (match self@ {
                ArgModel::Stream => "<stdin>"@,
                ArgModel::Path(t) => shown_text(t),
            }),
    {
        match self {
            InputArg::Stdin => "<stdin>".to_owned(),
            InputArg::Path(p) => lossy_string(p.as_slice()),
        }
    }
}

impl Default for InputArg {
    fn default() -> (r: InputArg)
        ensures
            r is Stdin,
    {
        InputArg::Stdin
    }
}

impl From<Vec<u8>> for InputArg {
    fn from(arg: Vec<u8>) -> (r: InputArg) {
        InputArg::from_raw(arg)
    }
}

impl vstd::std_specs::convert::FromSpecImpl<Vec<u8>> for InputArg {
    open spec fn obeys_from_spec() -> bool {
        true
    }

    open spec fn from_spec(arg: Vec<u8>) -> InputArg {
        if arg@ == hyphen() {
            InputArg::Stdin
        } else {
            InputArg::Path(arg)
        }
    }
}

impl From<&str> for InputArg {
    fn from(arg: &str) -> (r: InputArg)
        ensures
            r@ == ArgModel::parse(encode_utf8(arg@)),
    {
        InputArg::from_arg(arg)
    }
}

/// The result is a vector, which a specification cannot build from the
/// text: the contract stands on `from` itself, over the view.
impl vstd::std_specs::convert::FromSpecImpl<&str> for InputArg {
    open spec fn obeys_from_spec() -> bool {
        false
    }

    open spec fn from_spec(arg: &str) -> InputArg {
        arbitrary()
    }
}

impl From<String> for InputArg {
    fn from(arg: String) -> (r: InputArg)
        ensures
            r@ == ArgModel::parse(encode_utf8(arg@)),
    {
        InputArg::from_arg(arg.as_str())
    }
}

/// The result is a vector, which a specification cannot build from the
/// text: the contract stands on `from` itself, over the view.
impl vstd::std_specs::convert::FromSpecImpl<String> for InputArg {
    open spec fn obeys_from_spec() -> bool {
        false
    }

    open spec fn from_spec(arg: String) -> InputArg {
        arbitrary()
    }
}

impl From<PathBuf> for InputArg {
    fn from(arg: PathBuf) -> (r: InputArg) {
        InputArg::from_raw(path_buf_bytes(arg))
    }
}

/// A path is opaque here, so nothing is stated of the result beyond what
/// `from_raw` does with the path's platform text, which is not modelled.
impl vstd::std_specs::convert::FromSpecImpl<PathBuf> for InputArg {
    open spec fn obeys_from_spec() -> bool {
        false
    }

    open spec fn from_spec(arg: PathBuf) -> InputArg {
        arbitrary()
    }
}

impl From<&Path> for InputArg {
    fn from(arg: &Path) -> (r: InputArg) {
        InputArg::from_raw(path_bytes(arg))
    }
}

/// A path is opaque here, so nothing is stated of the result beyond what
/// `from_raw` does with the path's platform text, which is not modelled.
impl vstd::std_specs::convert::FromSpecImpl<&Path> for InputArg {
    open spec fn obeys_from_spec() -> bool {
        false
    }

    open spec fn from_spec(arg: &Path) -> InputArg {
        arbitrary()
    }
}

/// Every InputArg is exactly one of standard input and a path.
pub proof fn lemma_stdin_or_path(a: InputArg)
    ensures
        (a is Stdin) != (a is Path),
{
}

/// For an argument parsed from raw text, the path is absent exactly when
/// the text is `-`, and is otherwise the text itself.
pub proof fn lemma_parsed_path(t: Seq<u8>, a: InputArg)
    requires
        a@ == ArgModel::parse(t),
    ensures
        a is Stdin <==> t == hyphen(),
        a matches InputArg::Path(p) ==> p@ == t,
{
}

} // verus!
