use vstd::prelude::*;

verus! {

/// The request of the example gRPC method.
pub struct YourRequest {
    pub message: String,
}

/// The reply of the example gRPC method.
pub struct YourResponse {
    pub reply: String,
}

/// The example gRPC service: it greets whoever the request names.
#[derive(Debug, Clone, Copy, Default)]
pub struct MyGrpcService {}

/// The greeting for `name`: `Hello {name}!`.
pub open spec fn greeting(name: Seq<char>) -> Seq<char> {
    seq!['H', 'e', 'l', 'l', 'o', ' '] + name + seq!['!']
}

impl MyGrpcService {
    /// Answers a request with the greeting for its message.
    pub fn your_method(&self, request: YourRequest) -> (r: YourResponse)
        ensures
            r.reply@ == greeting(request.message@),
    {
        let mut reply = String::from_str("Hello ");
        reply.append(request.message.as_str());
        reply.append("!");
        proof {
            reveal_strlit("Hello ");
            reveal_strlit("!");
        }
        assert(reply@ =~= greeting(request.message@));
        YourResponse { reply }
    }
}

/// The greeting is `Hello `, then the whole name, then `!`: seven characters
/// longer than the name, with the name unchanged between the two.
pub proof fn lemma_greeting_shape(name: Seq<char>)
    ensures
        greeting(name).len() == name.len() + 7,
        greeting(name)[0] == 'H' && greeting(name)[1] == 'e' && greeting(name)[2] == 'l'
            && greeting(name)[3] == 'l' && greeting(name)[4] == 'o' && greeting(name)[5] == ' ',
        greeting(name).subrange(6, 6 + name.len() as int) == name,
        greeting(name)[6 + name.len() as int] == '!',
{
    assert(greeting(name).subrange(6, 6 + name.len() as int) =~= name);
}

/// Two names get the same greeting only if they are the same name.
pub proof fn lemma_greeting_injective(a: Seq<char>, b: Seq<char>)
    requires
        greeting(a) == greeting(b),
    ensures
        a == b,
{
    lemma_greeting_shape(a);
    lemma_greeting_shape(b);
}

} // verus!
