//! A greeting service: it answers a name with a hello that also shows which
//! client asked.

use vstd::prelude::*;

verus! {

/// The greeting for `name`, sent to the client shown as `client`:
/// `[client]: Hello, name!`.
pub open spec fn greeting(client: Seq<char>, name: Seq<char>) -> Seq<char> {
    "["@ + client + "]: Hello, "@ + name + "!"@
}

/// The service's one request: a name, answered with a greeting.
pub trait WorldService {
    fn hello(&self, name: String) -> String;
}

/// The server side of one client's connection; `client` shows the client's
/// address.
pub struct MyServer {
    pub client: String,
}

impl WorldService for MyServer {
    fn hello(&self, name: String) -> (r: String)
        ensures
            r@ == greeting(self.client@, name@),
    {
        let mut out = String::from_str("[");
        out.append(self.client.as_str());
        out.append("]: Hello, ");
        out.append(name.as_str());
        out.append("!");
        out
    }
}

} // verus!
