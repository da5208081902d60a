//! Request methods.

use std::str::FromStr;
use vstd::prelude::*;
use crate::text::str_eq;

verus! {

/// The characters a method name may be made of: letters, digits and
/// ``! # $ % & ' * + - . ^ _ ` | ~``.
pub open spec fn is_tchar(c: char) -> bool {
    ||| 'a' <= c <= 'z'
    ||| 'A' <= c <= 'Z'
    ||| '0' <= c <= '9'
    ||| c == '!'
    ||| c == '#'
    ||| c == '$'
    ||| c == '%'
    ||| c == '&'
    ||| c == '\''
    ||| c == '*'
    ||| c == '+'
    ||| c == '-'
    ||| c == '.'
    ||| c == '^'
    ||| c == '_'
    ||| c == '`'
    ||| c == '|'
    ||| c == '~'
}

/// A method name is a non-empty run of such characters.
pub open spec fn is_token(s: Seq<char>) -> bool {
    s.len() > 0 && forall|i: int| 0 <= i < s.len() ==> is_tchar(#[trigger] s[i])
}

/// A request method, held by its name. Names are case-sensitive.
#[derive(Debug, PartialEq, Eq)]
pub struct Method {
    name: String,
}

impl View for Method {
    type V = Seq<char>;

    closed spec fn view(&self) -> Seq<char> {
        self.name@
    }
}

impl DeepView for Method {
    type V = Seq<char>;

    open spec fn deep_view(&self) -> Seq<char> {
        self@
    }
}

/// Calls `http::Method::from_str` and reads the method back with
/// `http::Method::as_str`. The `http` crate accepts exactly the non-empty
/// texts whose bytes all are method characters, and a method that was accepted
/// gives back the text it was made from.
#[verifier::external_body]
fn http_method_name(s: &str) -> (r: Option<String>)
    ensures
        r is Some <==> is_token(s@),
        r matches Some(name) ==> name@ == s@,
{
    match http::Method::from_str(s) {
        Ok(method) => Some(method.as_str().to_string()),
        Err(_) => None,
    }
}

impl Method {
    #[verifier::type_invariant]
    spec fn well_formed(self) -> bool {
        is_token(self.name@)
    }

    /// Parses a method name; `None` if `s` is not a method name.
    pub fn from_str(s: &str) -> (r: Option<Method>)
        ensures
            r is Some <==> is_token(s@),
            r matches Some(m) ==> m@ == s@,
    {
        match http_method_name(s) {
            Some(name) => Some(Method { name }),
            None => None,
        }
    }

    /// The method's name.
    pub fn as_str(&self) -> (r: &str)
        ensures
            r@ == self@,
            is_token(r@),
    {
        proof {
            use_type_invariant(self);
        }
        self.name.as_str()
    }

    /// Whether this is the method called `name`.
    pub fn is_named(&self, name: &str) -> (r: bool)
        ensures
            r == (self@ == name@),
    {
        str_eq(self.name.as_str(), name)
    }
}

impl Default for Method {
    /// `GET`.
    fn default() -> (r: Method)
        ensures
            r@ == "GET"@,
    {
        proof {
            reveal_strlit("GET");
        }
        Method { name: "GET".to_string() }
    }
}

} // verus!
