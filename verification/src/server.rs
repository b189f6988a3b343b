//! Configuration of the daemon's connection server. The accept loop, the
//! socket and the signal handling are I/O and live outside the library; they
//! read their parameters from here.

use vstd::prelude::*;

verus! {

/// The connection server's configuration: the socket path it owns and the
/// key-service endpoint its request handlers drive.
pub struct DaemonServer {
    socket_path: String,
    server_url: String,
}

impl DaemonServer {
    /// The filesystem path of the listening socket.
    pub closed spec fn spec_socket_path(&self) -> Seq<char> {
        self.socket_path@
    }

    /// The key-service endpoint handed to each request handler.
    pub closed spec fn spec_server_url(&self) -> Seq<char> {
        self.server_url@
    }

    pub fn new(socket_path: String, server_url: String) -> (r: Self)
        ensures
            r.spec_socket_path() == socket_path@,
            r.spec_server_url() == server_url@,
    {
        DaemonServer { socket_path, server_url }
    }

    /// The filesystem path of the listening socket.
    pub fn socket_path(&self) -> (r: &str)
        ensures
            r@ == self.spec_socket_path(),
    {
        self.socket_path.as_str()
    }

    /// The key-service endpoint handed to each request handler.
    pub fn server_url(&self) -> (r: &str)
        ensures
            r@ == self.spec_server_url(),
    {
        self.server_url.as_str()
    }
}

} // verus!
