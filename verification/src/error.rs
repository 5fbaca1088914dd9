use vstd::prelude::*;
use vstd::string::StringExecFns;

verus! {

/// The ordered list of error messages that the venue's API returned,
/// kept verbatim so a caller can match on individual entries.
#[derive(Debug, Clone)]
pub struct KrakenError {
    errors: Vec<String>,
}

impl View for KrakenError {
    type V = Seq<Seq<char>>;

    closed spec fn view(&self) -> Seq<Seq<char>> {
        self.errors.deep_view()
    }
}

/// The messages joined by a single newline between neighbours.
pub open spec fn joined_with_newlines(msgs: Seq<Seq<char>>) -> Seq<char>
    decreases msgs.len(),
{
    if msgs.len() == 0 {
        Seq::empty()
    } else if msgs.len() == 1 {
        msgs[0]
    } else {
        joined_with_newlines(msgs.drop_last()) + seq!['\n'] + msgs.last()
    }
}

impl KrakenError {
    /// Wraps the server's messages, keeping them verbatim and in order.
    pub fn new(errors: Vec<String>) -> (r: KrakenError)
        ensures
            r@ == errors.deep_view(),
    {
        KrakenError { errors }
    }

    /// The server's messages, verbatim and in order.
    pub fn errors(&self) -> (r: &Vec<String>)
        ensures
            r.deep_view() == self@,
    {
        &self.errors
    }

    /// Renders the messages joined by newlines, for human display.
    pub fn message(&self) -> (r: String)
        ensures
            r@ == joined_with_newlines(self@),
    {
        let mut out = String::new();
        let n = self.errors.len();
        let mut i: usize = 0;
        proof {
            assert(self@.take(0) =~= Seq::<Seq<char>>::empty());
        }
        while i < n
            invariant
                i <= n,
                n == self.errors.len(),
                self@ == self.errors.deep_view(),
                out@ == joined_with_newlines(self@.take(i as int)),
            decreases n - i,
        {
            if i > 0 {
                out.append("\n");
            }
            out.append(self.errors[i].as_str());
            proof {
                let j = i as int;
                assert(self@.take(j + 1).drop_last() =~= self@.take(j));
                assert(self@.take(j + 1).last() == self@[j]);
                if j == 0 {
                    assert(joined_with_newlines(self@.take(1)) == self@[0]);
                    reveal_strlit("\n");
                } else {
                    reveal_strlit("\n");
                    assert(out@ == joined_with_newlines(self@.take(j)) + seq!['\n'] + self@[j]);
                }
            }
            i += 1;
        }
        proof {
            assert(self@.take(n as int) =~= self@);
        }
        out
    }
}

impl From<Vec<String>> for KrakenError {
    fn from(errors: Vec<String>) -> (r: Self) {
        KrakenError { errors }
    }
}

impl vstd::std_specs::convert::FromSpecImpl<Vec<String>> for KrakenError {
    open spec fn obeys_from_spec() -> bool {
        true
    }

    closed spec fn from_spec(errors: Vec<String>) -> Self {
        KrakenError { errors }
    }
}

/// The `From` conversion keeps the server's messages verbatim and in order:
/// what `KrakenError::from` returns views as the given list.
pub proof fn lemma_from_keeps_messages(errors: Vec<String>)
    ensures
        <KrakenError as vstd::std_specs::convert::FromSpec<Vec<String>>>::obeys_from_spec(),
        (<KrakenError as vstd::std_specs::convert::FromSpec<Vec<String>>>::from_spec(errors))@
            == errors.deep_view(),
{
}

/// The terminal error of one authentication attempt; exactly one arises
/// per failed attempt and none is recovered internally.
#[derive(Debug, Clone)]
pub enum TokenError {
    /// The configured secret key was not valid base64.
    Encoding,
    /// The decoded secret key was rejected as signing-key material (empty key).
    Key,
    /// The one-time-code generator rejected the configured seed.
    Otp,
    /// Network, timeout or deserialization failure, with its detail.
    Transport(String),
    /// The server answered with a populated error list.
    Api(KrakenError),
    /// The response populated both or neither of its result and error fields.
    Protocol,
}

} // verus!
