//! The `ErrorInfo` value type, its construction, and its two renderings.

use vstd::prelude::*;
use vstd::string::StringExecFns;

use crate::fingerprint::{fingerprint, fingerprint_of};

verus! {

/// The capability of parsing an application code from its canonical string
/// form. Implemented by each application's code type.
///
/// Failure to parse signals a defect in the adopting application's
/// declarations, not a runtime condition: an implementation aborts rather
/// than returning an error.
pub trait ParseAppCode: Sized {
    /// Parses the canonical string form of an application code.
    fn from_app_code_str(s: &str) -> Self;
}

/// One error occurrence: a typed application code, a static category tag,
/// the fingerprint of the detailed message, and the client/server message
/// pair.
pub struct ErrorInfo<T> {
    /// The application-defined, typed classification of this error.
    pub app_code: T,
    /// The static category tag, supplied by the implementer.
    pub code: &'static str,
    /// The fingerprint token, computed once from the server message.
    pub hash: String,
    /// The message safe to expose externally; may be empty.
    pub client_msg: &'static str,
    /// The full diagnostic message, retained verbatim.
    pub server_msg: String,
}

/// The capability of projecting an error-representing value into an
/// [`ErrorInfo`]. Implemented by each application's error taxonomy.
pub trait ToErrorInfo {
    /// The application's own code type.
    type T: ParseAppCode;

    /// Produces the [`ErrorInfo`] describing this error value.
    fn to_error_into(&self) -> ErrorInfo<Self::T>;
}

/// The rendered form `[{code}-{hash}] {msg}`: the tag in square brackets,
/// a `-` between category and fingerprint, and exactly one space before
/// the message.
pub open spec fn tagged(code: Seq<char>, hash: Seq<char>, msg: Seq<char>) -> Seq<char> {
    seq!['['] + code + seq!['-'] + hash + seq![']', ' '] + msg
}

impl<T> ErrorInfo<T> {
    /// Well-formedness: the stored fingerprint is the fingerprint of the
    /// stored server message.
    pub open spec fn wf(self) -> bool {
        self.hash@ == fingerprint_of(self.server_msg@)
    }

    /// The message body chosen for the client-facing rendering: the client
    /// message, unless it is empty, in which case the server message.
    pub open spec fn chosen_client_msg(self) -> Seq<char> {
        if self.client_msg@.len() == 0 {
            self.server_msg@
        } else {
            self.client_msg@
        }
    }

    /// Assembles an [`ErrorInfo`] from an already-parsed application code,
    /// computing the fingerprint from the server message.
    pub fn from_parts(
        app_code: T,
        code: &'static str,
        client_msg: &'static str,
        server_msg: String,
    ) -> (info: ErrorInfo<T>)
        ensures
            info.app_code == app_code,
            info.code@ == code@,
            info.client_msg@ == client_msg@,
            info.server_msg@ == server_msg@,
            info.hash@ == fingerprint_of(server_msg@),
            info.wf(),
    {
        let hash = fingerprint(server_msg.as_str());
        ErrorInfo { app_code, code, hash, client_msg, server_msg }
    }

    /// The client-facing message body: `client_msg` if non-empty, else the
    /// server message, so that no error is ever presented with empty text.
    pub fn client_msg(&self) -> (msg: &str)
        ensures
            msg@ == self.chosen_client_msg(),
    {
        if self.client_msg.is_empty() {
            proof {
                lemma_utf8_len_zero(self.client_msg@);
            }
            self.server_msg.as_str()
        } else {
            proof {
                lemma_utf8_len_zero(self.client_msg@);
            }
            self.client_msg
        }
    }

    /// The client-facing rendering `[{code}-{hash}] {msg}`, where the
    /// message body falls back to the server message when the client
    /// message is empty.
    pub fn client_string(&self) -> (s: String)
        ensures
            s@ == tagged(self.code@, self.hash@, self.chosen_client_msg()),
    {
        let mut s = String::new();
        s.append("[");
        s.append(self.code);
        s.append("-");
        s.append(self.hash.as_str());
        s.append("] ");
        s.append(self.client_msg());
        proof {
            reveal_strlit("[");
            reveal_strlit("-");
            reveal_strlit("] ");
            assert(s@ =~= tagged(self.code@, self.hash@, self.chosen_client_msg()));
        }
        s
    }

    /// The server-facing rendering `[{code}-{hash}] {server_msg}`: always
    /// the full diagnostic message, under the same tag as the client
    /// rendering.
    pub fn server_string(&self) -> (s: String)
        ensures
            s@ == tagged(self.code@, self.hash@, self.server_msg@),
    {
        let mut s = String::new();
        s.append("[");
        s.append(self.code);
        s.append("-");
        s.append(self.hash.as_str());
        s.append("] ");
        s.append(self.server_msg.as_str());
        proof {
            reveal_strlit("[");
            reveal_strlit("-");
            reveal_strlit("] ");
            assert(s@ =~= tagged(self.code@, self.hash@, self.server_msg@));
        }
        s
    }
}

impl<T: ParseAppCode> ErrorInfo<T> {
    /// Builds an [`ErrorInfo`] from the four pieces supplied per error
    /// variant: the textual application code, the category tag, the
    /// client-safe message, and the detailed server message.
    ///
    /// The application code is parsed by the application's own
    /// [`ParseAppCode`] implementation; an unparsable code is a defect
    /// there, and that implementation aborts.
    pub fn new(
        app_code: &str,
        code: &'static str,
        client_msg: &'static str,
        server_msg: String,
    ) -> (info: ErrorInfo<T>)
        ensures
            info.code@ == code@,
            info.client_msg@ == client_msg@,
            info.server_msg@ == server_msg@,
            info.hash@ == fingerprint_of(server_msg@),
            info.wf(),
    {
        let parsed = T::from_app_code_str(app_code);
        Self::from_parts(parsed, code, client_msg, server_msg)
    }
}

/// A string's UTF-8 byte encoding is empty exactly when the string has no
/// characters.
proof fn lemma_utf8_len_zero(chars: Seq<char>)
    ensures
        vstd::utf8::encode_utf8(chars).len() == 0 <==> chars.len() == 0,
{
    if chars.len() > 0 {
        assert(vstd::utf8::encode_scalar(chars[0] as u32).len() >= 1);
    }
}

/// Law: the fingerprint ignores the category tag, the client message, and
/// the application code; any two well-formed values carrying the same
/// server message carry the same fingerprint, whatever their other fields
/// or code types.
pub proof fn lemma_hash_independent_of_category<T1, T2>(e1: ErrorInfo<T1>, e2: ErrorInfo<T2>)
    requires
        e1.wf(),
        e2.wf(),
        e1.server_msg@ == e2.server_msg@,
    ensures
        e1.hash@ == e2.hash@,
{
}

/// Law: format exactness; a rendering is `[`, the category code, `-`, the
/// fingerprint, `]`, exactly one space, and then the message body, with
/// nothing else between or after.
pub proof fn lemma_tagged_format(code: Seq<char>, hash: Seq<char>, msg: Seq<char>)
    ensures
        ({
            let t = tagged(code, hash, msg);
            &&& t.len() == 4 + code.len() + hash.len() + msg.len()
            &&& t[0] == '['
            &&& t.subrange(1, 1 + code.len() as int) == code
            &&& t[1 + code.len() as int] == '-'
            &&& t.subrange(2 + code.len() as int, 2 + code.len() + hash.len() as int) == hash
            &&& t[2 + code.len() + hash.len() as int] == ']'
            &&& t[3 + code.len() + hash.len() as int] == ' '
            &&& t.subrange(4 + code.len() + hash.len() as int, t.len() as int) == msg
        }),
{
    let t = tagged(code, hash, msg);
    assert(t.subrange(1, 1 + code.len() as int) =~= code);
    assert(t.subrange(2 + code.len() as int, 2 + code.len() + hash.len() as int) =~= hash);
    assert(t.subrange(4 + code.len() + hash.len() as int, t.len() as int) =~= msg);
}

/// Law: client fallback; when the client message is empty the client-facing
/// message body is the server message, otherwise it is the client message
/// verbatim.
pub proof fn lemma_client_fallback<T>(e: ErrorInfo<T>)
    ensures
        e.client_msg@.len() == 0 ==> e.chosen_client_msg() == e.server_msg@,
        e.client_msg@.len() != 0 ==> e.chosen_client_msg() == e.client_msg@,
{
}

} // verus!
