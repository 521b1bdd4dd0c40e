use vstd::prelude::*;
use super::connection_type::ConnectionType;
use super::endpoint::{host, host_of, port, port_of, user_name, user_name_of};

verus! {

/// What a session is, as mathematics: two texts and a protocol.
pub struct SessionView {
    pub name: Seq<char>,
    pub data: Seq<char>,
    pub connection_type: ConnectionType,
}

/// One remote target: a label, the endpoint as the user typed it, and
/// the protocol to reach it with.
#[derive(Debug)]
pub struct Session {
    pub name: String,
    pub data: String,
    pub connection_type: ConnectionType,
}

impl View for Session {
    type V = SessionView;

    open spec fn view(&self) -> SessionView {
        SessionView {
            name: self.name@,
            data: self.data@,
            connection_type: self.connection_type,
        }
    }
}

impl Clone for Session {
    fn clone(&self) -> (copy: Session)
        ensures
            copy == *self,
    {
        Session {
            name: self.name.clone(),
            data: self.data.clone(),
            connection_type: self.connection_type,
        }
    }
}

/// The views of a sequence of sessions, in the same order.
pub open spec fn session_views(sessions: Seq<Session>) -> Seq<SessionView> {
    Seq::new(sessions.len(), |i: int| sessions[i]@)
}

/// The views of a sequence of texts, in the same order.
pub open spec fn text_views(texts: Seq<String>) -> Seq<Seq<char>> {
    Seq::new(texts.len(), |i: int| texts[i]@)
}

impl SessionView {
    pub open spec fn user_name(self) -> Seq<char> {
        user_name_of(self.data)
    }

    pub open spec fn host(self) -> Seq<char> {
        host_of(self.data)
    }

    pub open spec fn port(self) -> Seq<char> {
        port_of(self.data, self.connection_type)
    }

    /// The arguments the connection program is started with: for SSH
    /// the host, `-p` and the port, then `-l` and the user name if there
    /// is one; for Telnet the host and the port.
    pub open spec fn launch_args(self) -> Seq<Seq<char>> {
        match self.connection_type {
            ConnectionType::SSH => if self.user_name().len() == 0 {
                seq![self.host(), "-p"@, self.port()]
            } else {
                seq![self.host(), "-p"@, self.port(), "-l"@, self.user_name()]
            },
            ConnectionType::Telnet => seq![self.host(), self.port()],
        }
    }
}

impl Session {
    pub fn new(name: String, data: String, connection_type: ConnectionType) -> (session: Session)
        ensures
            session.name == name,
            session.data == data,
            session.connection_type == connection_type,
    {
        Session { name, data, connection_type }
    }

    pub fn builder() -> (builder: SessionBuilder)
        ensures
            builder@ == SessionBuilder::initial(),
    {
        SessionBuilder::new()
    }

    pub fn get_user_name(&self) -> (name: String)
        ensures
            name@ == self@.user_name(),
    {
        user_name(self.data.as_str())
    }

    pub fn get_ip(&self) -> (name: String)
        ensures
            name@ == self@.host(),
    {
        host(self.data.as_str())
    }

    pub fn get_port(&self) -> (number: String)
        ensures
            number@ == self@.port(),
    {
        port(self.data.as_str(), self.connection_type)
    }

    /// The arguments to start the connection program with. The program
    /// itself is named by the protocol.
    pub fn launch_args(&self) -> (args: Vec<String>)
        ensures
            text_views(args@) == self@.launch_args(),
    {
        let mut args: Vec<String> = Vec::new();
        args.push(self.get_ip());
        match self.connection_type {
            ConnectionType::SSH => {
                args.push("-p".to_owned());
                args.push(self.get_port());
                let user = self.get_user_name();
                if user.as_str().unicode_len() != 0 {
                    args.push("-l".to_owned());
                    args.push(user);
                }
            },
            ConnectionType::Telnet => {
                args.push(self.get_port());
            },
        }
        assert(text_views(args@) =~= self@.launch_args());
        args
    }
}

/// Collects the fields of a session one at a time.
pub struct SessionBuilder {
    name: String,
    data: String,
    connection_type: ConnectionType,
}

impl View for SessionBuilder {
    type V = SessionView;

    closed spec fn view(&self) -> SessionView {
        SessionView {
            name: self.name@,
            data: self.data@,
            connection_type: self.connection_type,
        }
    }
}

impl SessionBuilder {
    /// What a fresh builder holds: no name, no endpoint, SSH.
    pub open spec fn initial() -> SessionView {
        SessionView {
            name: Seq::empty(),
            data: Seq::empty(),
            connection_type: ConnectionType::SSH,
        }
    }

    fn new() -> (builder: SessionBuilder)
        ensures
            builder@ == Self::initial(),
    {
        SessionBuilder {
            name: String::new(),
            data: String::new(),
            connection_type: ConnectionType::SSH,
        }
    }

    pub fn name(&mut self, name: String) -> (this: &mut SessionBuilder)
        ensures
            this@ == (SessionView { name: name@, ..old(self)@ }),
            final(self)@ == final(this)@,
    {
        self.name = name;
        self
    }

    pub fn data(&mut self, data: String) -> (this: &mut SessionBuilder)
        ensures
            this@ == (SessionView { data: data@, ..old(self)@ }),
            final(self)@ == final(this)@,
    {
        self.data = data;
        self
    }

    pub fn connection_type(&mut self, connection_type: ConnectionType) -> (this: &mut SessionBuilder)
        ensures
            this@ == (SessionView { connection_type: connection_type, ..old(self)@ }),
            final(self)@ == final(this)@,
    {
        self.connection_type = connection_type;
        self
    }

    pub fn build(&self) -> (session: Session)
        ensures
            session@ == self@,
    {
        Session::new(self.name.clone(), self.data.clone(), self.connection_type)
    }
}

} // verus!
