use vstd::prelude::*;

verus! {

/// The protocol a session is opened with.
#[allow(clippy::upper_case_acronyms)]
#[derive(Clone, Copy, Debug, PartialEq, Eq, Structural)]
pub enum ConnectionType {
    Telnet,
    SSH,
}

/// The lower-case form of a text, as `str::to_lowercase` computes it.
pub uninterp spec fn lowercase_of(text: Seq<char>) -> Seq<char>;

/// The protocol that an already lower-cased answer selects: Telnet for
/// exactly `telnet`, SSH for everything else.
pub open spec fn protocol_of_lowercase(lowered: Seq<char>) -> ConnectionType {
    if lowered == "telnet"@ {
        ConnectionType::Telnet
    } else {
        ConnectionType::SSH
    }
}

/// Calls `str::to_lowercase`. The result is a function of the text alone
/// (Unicode's lower-case mapping); it is named, not described.
#[verifier::external_body]
fn to_lowercase(text: &str) -> (lowered: String)
    ensures
        lowered@ == lowercase_of(text@),
{
    text.to_lowercase()
}

impl ConnectionType {
    /// The name of the program that speaks this protocol.
    pub open spec fn program(self) -> Seq<char> {
        match self {
            ConnectionType::Telnet => "telnet"@,
            ConnectionType::SSH => "ssh"@,
        }
    }

    /// The port a session uses when its endpoint names none.
    pub open spec fn default_port(self) -> Seq<char> {
        match self {
            ConnectionType::Telnet => seq!['2', '3'],
            ConnectionType::SSH => seq!['2', '2'],
        }
    }

    pub fn to_string(&self) -> (name: String)
        ensures
            name@ == self.program(),
    {
        match self {
            ConnectionType::Telnet => "telnet".to_owned(),
            ConnectionType::SSH => "ssh".to_owned(),
        }
    }

    /// The port a session uses when its endpoint names none, as text.
    pub fn default_port_string(&self) -> (port: String)
        ensures
            port@ == self.default_port(),
    {
        match self {
            ConnectionType::Telnet => {
                proof {
                    reveal_strlit("23");
                }
                let port = "23".to_owned();
                assert(port@ =~= seq!['2', '3']);
                port
            },
            ConnectionType::SSH => {
                proof {
                    reveal_strlit("22");
                }
                let port = "22".to_owned();
                assert(port@ =~= seq!['2', '2']);
                port
            },
        }
    }

    /// Menu numbering: 0 is Telnet, 1 is SSH, nothing else is a protocol.
    pub fn try_from(value: i32) -> (protocol: Result<ConnectionType, ()>)
        ensures
            value == 0 ==> protocol == Ok::<ConnectionType, ()>(ConnectionType::Telnet),
            value == 1 ==> protocol == Ok::<ConnectionType, ()>(ConnectionType::SSH),
            value != 0 && value != 1 ==> protocol is Err,
    {
        match value {
            0 => Ok(ConnectionType::Telnet),
            1 => Ok(ConnectionType::SSH),
            _ => Err(()),
        }
    }

    /// Reads a lower-cased answer to the protocol prompt.
    pub fn from_lowercase(lowered: &str) -> (protocol: ConnectionType)
        ensures
            protocol == protocol_of_lowercase(lowered@),
    {
        let telnet = "telnet".to_owned();
        let answer = lowered.to_owned();
        if answer == telnet {
            ConnectionType::Telnet
        } else {
            ConnectionType::SSH
        }
    }

    /// Reads an answer to the protocol prompt, in any letter case: `telnet`
    /// selects Telnet, any other text SSH.
    pub fn from_answer(answer: &str) -> (protocol: ConnectionType)
        ensures
            protocol == protocol_of_lowercase(lowercase_of(answer@)),
    {
        let lowered = to_lowercase(answer);
        ConnectionType::from_lowercase(lowered.as_str())
    }
}

} // verus!
