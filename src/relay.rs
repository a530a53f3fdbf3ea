use vstd::prelude::*;
use vstd::string::StringExecFns;
use crate::clients::{record_of, ClientType, ClientsList};
use crate::config::{config_bytes, PowerWindowsConfig, Serialize};
use crate::controls::PowerWindowButtonState;

verus! {

/// The commands that a door node serves.
#[derive(Debug, Clone, Copy, PartialEq, Eq, Structural)]
pub enum Endpoint {
    OpenContinuous,
    CloseContinuous,
    OpenFully,
    CloseFully,
    Stop,
    ConfigureThresholds,
}

pub open spec fn endpoint_path(e: Endpoint) -> Seq<char> {
    match e {
        Endpoint::OpenContinuous => "open-continuous"@,
        Endpoint::CloseContinuous => "close-continuous"@,
        Endpoint::OpenFully => "open-fully"@,
        Endpoint::CloseFully => "close-fully"@,
        Endpoint::Stop => "stop"@,
        Endpoint::ConfigureThresholds => "configure-thresholds"@,
    }
}

impl Endpoint {
    /// The path under which a door node serves this command.
    pub fn path(&self) -> (r: &'static str)
        ensures
            r@ == endpoint_path(*self),
    {
        match self {
            Endpoint::OpenContinuous => "open-continuous",
            Endpoint::CloseContinuous => "close-continuous",
            Endpoint::OpenFully => "open-fully",
            Endpoint::CloseFully => "close-fully",
            Endpoint::Stop => "stop",
            Endpoint::ConfigureThresholds => "configure-thresholds",
        }
    }
}

/// One call that the hub makes to a door node.
#[derive(Debug, Clone, Copy)]
pub struct OutboundCall {
    pub client_type: ClientType,
    pub endpoint: Endpoint,
    pub payload: [u8; 8],
}

/// The command that a button intent is relayed as.
pub open spec fn endpoint_for_button(state: PowerWindowButtonState) -> Endpoint {
    match state {
        PowerWindowButtonState::Released => Endpoint::Stop,
        PowerWindowButtonState::OpenContinuous => Endpoint::OpenContinuous,
        PowerWindowButtonState::CloseContinuous => Endpoint::CloseContinuous,
        PowerWindowButtonState::OpenFully => Endpoint::OpenFully,
        PowerWindowButtonState::CloseFully => Endpoint::CloseFully,
    }
}

/// Turns the hub's button readings into calls to the doors.
pub struct PowerWindowsSvc {}

impl PowerWindowsSvc {
    /// The call that relays a door's button intent: its command, with a
    /// zero payload.
    pub fn command_for_client(client_type: ClientType, button_state: PowerWindowButtonState) -> (r:
        OutboundCall)
        ensures
            r.client_type == client_type,
            r.endpoint == endpoint_for_button(button_state),
            r.payload@ == Seq::new(8, |i: int| 0u8),
    {
        let endpoint = match button_state {
            PowerWindowButtonState::CloseContinuous => Endpoint::CloseContinuous,
            PowerWindowButtonState::CloseFully => Endpoint::CloseFully,
            PowerWindowButtonState::OpenContinuous => Endpoint::OpenContinuous,
            PowerWindowButtonState::OpenFully => Endpoint::OpenFully,
            PowerWindowButtonState::Released => Endpoint::Stop,
        };
        let payload: [u8; 8] = [0, 0, 0, 0, 0, 0, 0, 0];
        assert(payload@ =~= Seq::new(8, |i: int| 0u8));
        OutboundCall { client_type, endpoint, payload }
    }
}

pub open spec fn digit_char(d: nat) -> char {
    if d == 0 {
        '0'
    } else if d == 1 {
        '1'
    } else if d == 2 {
        '2'
    } else if d == 3 {
        '3'
    } else if d == 4 {
        '4'
    } else if d == 5 {
        '5'
    } else if d == 6 {
        '6'
    } else if d == 7 {
        '7'
    } else if d == 8 {
        '8'
    } else {
        '9'
    }
}

/// Decimal notation of a number, without leading zeros.
pub open spec fn decimal(n: nat) -> Seq<char>
    decreases n,
{
    if n < 10 {
        seq![digit_char(n)]
    } else {
        decimal(n / 10).push(digit_char(n % 10))
    }
}

/// Dotted-decimal notation of an IPv4 address.
pub open spec fn dotted(ip: Seq<u8>) -> Seq<char> {
    decimal(ip[0] as nat) + "."@ + decimal(ip[1] as nat) + "."@ + decimal(ip[2] as nat) + "."@
        + decimal(ip[3] as nat)
}

/// The URL of a command on the node at `ip`.
pub open spec fn url_for(ip: Seq<u8>, path: Seq<char>) -> Seq<char> {
    "http://"@ + dotted(ip) + "/"@ + path
}

fn digit_str(d: u8) -> (r: &'static str)
    requires
        d < 10,
    ensures
        r@ == seq![digit_char(d as nat)],
{
    proof {
        reveal_strlit("0");
        reveal_strlit("1");
        reveal_strlit("2");
        reveal_strlit("3");
        reveal_strlit("4");
        reveal_strlit("5");
        reveal_strlit("6");
        reveal_strlit("7");
        reveal_strlit("8");
        reveal_strlit("9");
    }
    let r = if d == 0 {
        "0"
    } else if d == 1 {
        "1"
    } else if d == 2 {
        "2"
    } else if d == 3 {
        "3"
    } else if d == 4 {
        "4"
    } else if d == 5 {
        "5"
    } else if d == 6 {
        "6"
    } else if d == 7 {
        "7"
    } else if d == 8 {
        "8"
    } else {
        "9"
    };
    assert(r@ =~= seq![digit_char(d as nat)]);
    r
}

fn append_decimal(s: &mut String, n: u8)
    ensures
        final(s)@ == old(s)@ + decimal(n as nat),
{
    let ghost start = s@;
    if n >= 100 {
        s.append(digit_str(n / 100));
        s.append(digit_str((n / 10) % 10));
        s.append(digit_str(n % 10));
        proof {
            reveal_with_fuel(decimal, 3);
            assert((n as nat / 10) / 10 == n as nat / 100);
            assert(decimal(n as nat) =~= seq![
                digit_char(n as nat / 100),
                digit_char((n as nat / 10) % 10),
                digit_char(n as nat % 10),
            ]);
        }
    } else if n >= 10 {
        s.append(digit_str(n / 10));
        s.append(digit_str(n % 10));
        proof {
            reveal_with_fuel(decimal, 2);
            assert(decimal(n as nat) =~= seq![digit_char(n as nat / 10), digit_char(n as nat % 10)]);
        }
    } else {
        s.append(digit_str(n));
    }
    assert(s@ =~= start + decimal(n as nat));
}

/// Relays calls to the doors at the addresses that the registry last
/// reported.
pub struct RestClientSvc {
    clients: ClientsList,
}

impl RestClientSvc {
    pub fn new() -> (r: RestClientSvc)
        ensures
            r.clients() == ClientsList::new_spec(),
    {
        RestClientSvc { clients: ClientsList::new() }
    }

    pub closed spec fn clients(&self) -> ClientsList {
        self.clients
    }

    pub fn client_list(&self) -> (r: ClientsList)
        ensures
            r == self.clients(),
    {
        self.clients
    }

    /// Takes the registry's latest list of doors.
    pub fn set_clients(&mut self, clients: ClientsList)
        ensures
            final(self).clients() == clients,
    {
        self.clients = clients;
    }

    /// The URL of a command on a door, or `None` while the door has no
    /// known address.
    pub fn get_url(clients: ClientsList, client_type: ClientType, endpoint: Endpoint) -> (r: Option<
        String,
    >)
        ensures
            match record_of(clients, client_type) {
                Some(c) => r is Some && r->0@ == url_for(c.ip@, endpoint_path(endpoint)),
                None => r is None,
            },
    {
        let info = match client_type {
            ClientType::LeftDoor => clients.left_door,
            ClientType::RightDoor => clients.right_door,
        };
        match info {
            Some(client_info) => {
                let ip = client_info.ip;
                let mut url = "http://".to_owned();
                append_decimal(&mut url, ip[0]);
                url.append(".");
                append_decimal(&mut url, ip[1]);
                url.append(".");
                append_decimal(&mut url, ip[2]);
                url.append(".");
                append_decimal(&mut url, ip[3]);
                url.append("/");
                url.append(endpoint.path());
                assert(url@ =~= url_for(ip@, endpoint_path(endpoint)));
                Some(url)
            },
            None => None,
        }
    }

    /// The URL of a command on a door, from the latest list of doors.
    pub fn url_for_client(&self, client_type: ClientType, endpoint: Endpoint) -> (r: Option<String>)
        ensures
            match record_of(self.clients(), client_type) {
                Some(c) => r is Some && r->0@ == url_for(c.ip@, endpoint_path(endpoint)),
                None => r is None,
            },
    {
        Self::get_url(self.clients, client_type, endpoint)
    }

    /// The calls that distribute a configuration: one to each door, carrying
    /// its wire form.
    pub fn config_calls(config: &PowerWindowsConfig) -> (r: Vec<OutboundCall>)
        ensures
            r@.len() == 2,
            r@[0].client_type == ClientType::LeftDoor,
            r@[1].client_type == ClientType::RightDoor,
            forall|i: int|
                0 <= i < 2 ==> #[trigger] r@[i].endpoint == Endpoint::ConfigureThresholds
                    && r@[i].payload@ == config_bytes(*config),
    {
        let payload = config.serialize();
        let mut calls: Vec<OutboundCall> = Vec::new();
        calls.push(
            OutboundCall {
                client_type: ClientType::LeftDoor,
                endpoint: Endpoint::ConfigureThresholds,
                payload,
            },
        );
        calls.push(
            OutboundCall {
                client_type: ClientType::RightDoor,
                endpoint: Endpoint::ConfigureThresholds,
                payload,
            },
        );
        calls
    }
}

} // verus!
