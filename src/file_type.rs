use vstd::prelude::*;
use vstd::string::*;

use crate::entry::{Entry, FileKind};
use crate::error::ParseError;

verus! {

/// Whether two texts are the same characters.
pub fn same_text(a: &str, b: &str) -> (r: bool)
    ensures
        r == (a@ == b@),
{
    let n = a.unicode_len();
    if n != b.unicode_len() {
        return false;
    }
    let mut i: usize = 0;
    while i < n
        invariant
            n == a@.len(),
            n == b@.len(),
            i <= n,
            forall|j: int| 0 <= j < i ==> a@[j] == b@[j],
        decreases n - i,
    {
        if a.get_char(i) != b.get_char(i) {
            return false;
        }
        i = i + 1;
    }
    assert(a@ =~= b@);
    true
}

/// A test on the type of an entry.
#[derive(Clone, Copy, Debug, PartialEq, Eq, Structural)]
pub enum TypeFilter {
    Dir,
    /// Any entry for which the execute-permission probe on its path answers
    /// yes, whatever the type the walker reported.
    Executable,
    File,
    Pipe,
    Socket,
    SymLink,
}

impl TypeFilter {
    pub open spec fn accepts(self, kind: FileKind, executable: bool) -> bool {
        match self {
            TypeFilter::Dir => kind == FileKind::Dir,
            TypeFilter::Executable => executable,
            TypeFilter::File => kind == FileKind::File,
            TypeFilter::Pipe => kind == FileKind::Fifo,
            TypeFilter::Socket => kind == FileKind::Socket,
            TypeFilter::SymLink => kind == FileKind::SymLink,
        }
    }

    /// The filter a name denotes: `dir`, `executable`, `file`, `pipe`,
    /// `socket`, `sym-link`, or their one-letter forms `d`, `x`, `f`, `p`,
    /// `s`, `l`.
    pub open spec fn named(s: Seq<char>) -> Option<TypeFilter> {
        if s == "dir"@ || s == "d"@ {
            Some(TypeFilter::Dir)
        } else if s == "executable"@ || s == "x"@ {
            Some(TypeFilter::Executable)
        } else if s == "file"@ || s == "f"@ {
            Some(TypeFilter::File)
        } else if s == "pipe"@ || s == "p"@ {
            Some(TypeFilter::Pipe)
        } else if s == "socket"@ || s == "s"@ {
            Some(TypeFilter::Socket)
        } else if s == "sym-link"@ || s == "l"@ {
            Some(TypeFilter::SymLink)
        } else {
            None
        }
    }

    pub fn matches(&self, ent: &Entry) -> (r: bool)
        ensures
            r == self.accepts(ent.kind, ent.executable),
    {
        match self {
            TypeFilter::Dir => ent.kind == FileKind::Dir,
            TypeFilter::Executable => ent.executable,
            TypeFilter::File => ent.kind == FileKind::File,
            TypeFilter::Pipe => ent.kind == FileKind::Fifo,
            TypeFilter::Socket => ent.kind == FileKind::Socket,
            TypeFilter::SymLink => ent.kind == FileKind::SymLink,
        }
    }

    /// Reads a type name.
    pub fn parse(s: &str) -> (r: Result<TypeFilter, ParseError>)
        ensures
            r == match TypeFilter::named(s@) {
                Some(f) => Ok(f),
                None => Err(ParseError::InvalidType),
            },
    {
        if same_text(s, "dir") || same_text(s, "d") {
            Ok(TypeFilter::Dir)
        } else if same_text(s, "executable") || same_text(s, "x") {
            Ok(TypeFilter::Executable)
        } else if same_text(s, "file") || same_text(s, "f") {
            Ok(TypeFilter::File)
        } else if same_text(s, "pipe") || same_text(s, "p") {
            Ok(TypeFilter::Pipe)
        } else if same_text(s, "socket") || same_text(s, "s") {
            Ok(TypeFilter::Socket)
        } else if same_text(s, "sym-link") || same_text(s, "l") {
            Ok(TypeFilter::SymLink)
        } else {
            Err(ParseError::InvalidType)
        }
    }
}

impl std::str::FromStr for TypeFilter {
    type Err = ParseError;

    fn from_str(s: &str) -> (r: Result<TypeFilter, ParseError>)
        ensures
            r == match TypeFilter::named(s@) {
                Some(f) => Ok(f),
                None => Err(ParseError::InvalidType),
            },
    {
        TypeFilter::parse(s)
    }
}

} // verus!
