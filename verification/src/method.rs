//! The HTTP request methods that a route can be bound to.

use vstd::prelude::*;
use vstd::string::*;
use vstd::utf8::*;

verus! {

/// A standard HTTP request method.
#[derive(Clone, Copy, Debug, PartialEq, Eq, Hash, Structural)]
pub enum Method {
    Options,
    Get,
    Post,
    Put,
    Delete,
    Head,
    Trace,
    Connect,
    Patch,
}

/// Whether two byte strings are the same.
fn same_bytes(a: &[u8], b: &[u8]) -> (same: bool)
    ensures
        same == (a@ == b@),
{
    if a.len() != b.len() {
        return false;
    }
    let mut i: usize = 0;
    while i < a.len()
        invariant
            a.len() == b.len(),
            i <= a.len(),
            forall|j: int| 0 <= j < i ==> a@[j] == b@[j],
        decreases a.len() - i,
    {
        if a[i] != b[i] {
            return false;
        }
        i += 1;
    }
    proof {
        assert(a@ =~= b@);
    }
    true
}

impl Method {
    /// The method's name as it is written on the request line.
    pub open spec fn name(self) -> Seq<char> {
        match self {
            Method::Options => "OPTIONS"@,
            Method::Get => "GET"@,
            Method::Post => "POST"@,
            Method::Put => "PUT"@,
            Method::Delete => "DELETE"@,
            Method::Head => "HEAD"@,
            Method::Trace => "TRACE"@,
            Method::Connect => "CONNECT"@,
            Method::Patch => "PATCH"@,
        }
    }

    /// The bytes of the method's name: one byte for each of its characters.
    pub open spec fn token(self) -> Seq<u8> {
        Seq::new(self.name().len(), |i: int| self.name()[i] as u8)
    }

    /// Every method name is a short run of ASCII letters.
    pub proof fn lemma_name_is_ascii(self)
        ensures
            is_ascii_chars(self.name()),
            3 <= self.name().len() <= 7,
    {
        reveal_strlit("OPTIONS");
        reveal_strlit("GET");
        reveal_strlit("POST");
        reveal_strlit("PUT");
        reveal_strlit("DELETE");
        reveal_strlit("HEAD");
        reveal_strlit("TRACE");
        reveal_strlit("CONNECT");
        reveal_strlit("PATCH");
    }

    /// The method's name.
    pub fn as_str(&self) -> (s: &'static str)
        ensures
            s@ == self.name(),
    {
        match self {
            Method::Options => "OPTIONS",
            Method::Get => "GET",
            Method::Post => "POST",
            Method::Put => "PUT",
            Method::Delete => "DELETE",
            Method::Head => "HEAD",
            Method::Trace => "TRACE",
            Method::Connect => "CONNECT",
            Method::Patch => "PATCH",
        }
    }
}

impl Method {
    /// Whether `src` spells this method's name.
    fn is_spelled(self, src: &[u8]) -> (yes: bool)
        ensures
            yes == (src@ == self.token()),
    {
        let name = self.as_str();
        proof {
            self.lemma_name_is_ascii();
            is_ascii_spec_bytes(name);
        }
        same_bytes(src, name.as_bytes())
    }

    /// Reads a method from the bytes of its name. The name is case
    /// sensitive; anything but the nine standard names gives `None`.
    pub fn from_bytes(src: &[u8]) -> (res: Option<Method>)
        ensures
            match res {
                Some(m) => src@ == m.token(),
                None => forall|m: Method| src@ != m.token(),
            },
    {
        if Method::Options.is_spelled(src) {
            Some(Method::Options)
        } else if Method::Get.is_spelled(src) {
            Some(Method::Get)
        } else if Method::Post.is_spelled(src) {
            Some(Method::Post)
        } else if Method::Put.is_spelled(src) {
            Some(Method::Put)
        } else if Method::Delete.is_spelled(src) {
            Some(Method::Delete)
        } else if Method::Head.is_spelled(src) {
            Some(Method::Head)
        } else if Method::Trace.is_spelled(src) {
            Some(Method::Trace)
        } else if Method::Connect.is_spelled(src) {
            Some(Method::Connect)
        } else if Method::Patch.is_spelled(src) {
            Some(Method::Patch)
        } else {
            None
        }
    }

    /// Distinct methods have distinct names, so the method that
    /// `from_bytes` reads from a name is the one that bears it.
    pub proof fn lemma_token_is_injective(a: Method, b: Method)
        requires
            a.token() == b.token(),
        ensures
            a == b,
    {
        reveal_strlit("OPTIONS");
        reveal_strlit("GET");
        reveal_strlit("POST");
        reveal_strlit("PUT");
        reveal_strlit("DELETE");
        reveal_strlit("HEAD");
        reveal_strlit("TRACE");
        reveal_strlit("CONNECT");
        reveal_strlit("PATCH");
        assert(a.token().len() == a.name().len());
        assert(b.token().len() == b.name().len());
        if a != b {
            assert(a.token()[0] == a.name()[0] as u8);
            assert(b.token()[0] == b.name()[0] as u8);
            assert(a.token()[1] == a.name()[1] as u8);
            assert(b.token()[1] == b.name()[1] as u8);
        }
    }
}

} // verus!
