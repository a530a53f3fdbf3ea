use vstd::prelude::*;
use crate::mac::MacAddress;

verus! {

/// The doors that the hub serves.
#[derive(Debug, Clone, Copy, PartialEq, Eq, Structural)]
pub enum ClientType {
    RightDoor,
    LeftDoor,
}

/// Every door, in the order in which the registry visits them.
pub const CLIENT_TYPES: [ClientType; 2] = [ClientType::RightDoor, ClientType::LeftDoor];

/// A station associated with the hub's access point: its hardware address
/// and the IPv4 address that it was leased.
#[derive(Debug, Clone, Copy, PartialEq, Eq)]
pub struct ApClientInfo {
    pub mac: MacAddress,
    pub ip: [u8; 4],
}

/// The hardware address of the right door's node.
pub open spec fn right_door_mac() -> Seq<u8> {
    seq![0x40u8, 0x4cu8, 0xcau8, 0x43u8, 0x8au8, 0x64u8]
}

/// The hardware address bound to each door, where one is bound.
pub open spec fn mac_of_door(client_type: ClientType) -> Option<Seq<u8>> {
    match client_type {
        ClientType::RightDoor => Some(right_door_mac()),
        ClientType::LeftDoor => None,
    }
}

fn right_door_mac_address() -> (r: MacAddress)
    ensures
        r.raw@ == right_door_mac(),
{
    let r = MacAddress::new([0x40, 0x4c, 0xca, 0x43, 0x8a, 0x64]);
    assert(r.raw@ =~= right_door_mac());
    r
}

/// The hardware address bound to a door; the left door has none.
pub fn get_mac_for_client_type(client_type: ClientType) -> (r: Option<MacAddress>)
    ensures
        match mac_of_door(client_type) {
            Some(m) => r is Some && r->0.raw@ == m,
            None => r is None,
        },
{
    match client_type {
        ClientType::LeftDoor => None,
        ClientType::RightDoor => Some(right_door_mac_address()),
    }
}

/// The door that a hardware address is bound to, if any.
pub fn get_client_type_for_mac(mac: MacAddress) -> (r: Option<ClientType>)
    ensures
        r == (if mac.raw@ == right_door_mac() {
            Some(ClientType::RightDoor)
        } else {
            None::<ClientType>
        }),
{
    if mac.same_as(&right_door_mac_address()) {
        Some(ClientType::RightDoor)
    } else {
        None
    }
}

/// What the registry knows of each door.
#[derive(Debug, Clone, Copy, PartialEq, Eq, Default)]
pub struct ClientsList {
    pub left_door: Option<ApClientInfo>,
    pub right_door: Option<ApClientInfo>,
}

/// The record that a list holds for a door.
pub open spec fn record_of(list: ClientsList, client_type: ClientType) -> Option<ApClientInfo> {
    match client_type {
        ClientType::LeftDoor => list.left_door,
        ClientType::RightDoor => list.right_door,
    }
}

/// A list with the record of one door replaced.
pub open spec fn with_record(
    list: ClientsList,
    client_type: ClientType,
    record: Option<ApClientInfo>,
) -> ClientsList {
    match client_type {
        ClientType::LeftDoor => ClientsList { left_door: record, ..list },
        ClientType::RightDoor => ClientsList { right_door: record, ..list },
    }
}

impl ClientsList {
    pub open spec fn new_spec() -> ClientsList {
        ClientsList { left_door: None, right_door: None }
    }

    pub fn new() -> (r: ClientsList)
        ensures
            r == ClientsList::new_spec(),
    {
        ClientsList { left_door: None, right_door: None }
    }

    pub fn get_client_for_type(self, client_type: ClientType) -> (r: Option<ApClientInfo>)
        ensures
            r == record_of(self, client_type),
    {
        match client_type {
            ClientType::LeftDoor => self.left_door,
            ClientType::RightDoor => self.right_door,
        }
    }

    pub fn set_client_for_type(&mut self, client_type: ClientType, client: ApClientInfo)
        ensures
            *final(self) == with_record(*old(self), client_type, Some(client)),
    {
        match client_type {
            ClientType::LeftDoor => self.left_door = Some(client),
            ClientType::RightDoor => self.right_door = Some(client),
        }
    }

    pub fn remove_client_for_type(&mut self, client_type: ClientType)
        ensures
            *final(self) == with_record(*old(self), client_type, None),
    {
        match client_type {
            ClientType::LeftDoor => self.left_door = None,
            ClientType::RightDoor => self.right_door = None,
        }
    }
}

/// How a door's presence changed between two looks at the station list.
#[derive(Debug, Clone, Copy, PartialEq, Eq, Structural)]
pub enum DoorTransition {
    Unchanged,
    Connected,
    AddressChanged,
    Disconnected,
}

/// The first observed station with hardware address `mac`, from index `i` on.
pub open spec fn find_observed_from(
    observed: Seq<Option<ApClientInfo>>,
    mac: Seq<u8>,
    i: nat,
) -> Option<ApClientInfo>
    decreases observed.len() - i,
{
    if i >= observed.len() {
        None
    } else if observed[i as int] is Some && observed[i as int]->0.mac.raw@ == mac {
        observed[i as int]
    } else {
        find_observed_from(observed, mac, i + 1)
    }
}

/// The observed station of a door: none for a door with no bound address.
pub open spec fn found_for_door(
    observed: Seq<Option<ApClientInfo>>,
    client_type: ClientType,
) -> Option<ApClientInfo> {
    match mac_of_door(client_type) {
        Some(m) => find_observed_from(observed, m, 0),
        None => None,
    }
}

pub open spec fn transition_of(
    existing: Option<ApClientInfo>,
    found: Option<ApClientInfo>,
) -> DoorTransition {
    match (existing, found) {
        (Some(e), Some(f)) => if e.ip == f.ip {
            DoorTransition::Unchanged
        } else {
            DoorTransition::AddressChanged
        },
        (None, Some(_)) => DoorTransition::Connected,
        (Some(_), None) => DoorTransition::Disconnected,
        (None, None) => DoorTransition::Unchanged,
    }
}

/// The record kept for a door after a look at the station list.
pub open spec fn record_after(
    existing: Option<ApClientInfo>,
    found: Option<ApClientInfo>,
) -> Option<ApClientInfo> {
    if transition_of(existing, found) == DoorTransition::Unchanged {
        existing
    } else {
        found
    }
}

pub open spec fn door_changed(
    list: ClientsList,
    observed: Seq<Option<ApClientInfo>>,
    client_type: ClientType,
) -> bool {
    transition_of(record_of(list, client_type), found_for_door(observed, client_type))
        != DoorTransition::Unchanged
}

/// The registry after a look at the station list.
pub open spec fn refreshed(list: ClientsList, observed: Seq<Option<ApClientInfo>>) -> ClientsList {
    ClientsList {
        left_door: record_after(list.left_door, found_for_door(observed, ClientType::LeftDoor)),
        right_door: record_after(list.right_door, found_for_door(observed, ClientType::RightDoor)),
    }
}

/// Whether a look at the station list changed any door's record.
pub open spec fn any_changed(list: ClientsList, observed: Seq<Option<ApClientInfo>>) -> bool {
    door_changed(list, observed, ClientType::LeftDoor) || door_changed(
        list,
        observed,
        ClientType::RightDoor,
    )
}

/// The first observed station whose hardware address is `mac`.
pub fn find_client(observed: &[Option<ApClientInfo>], mac: &MacAddress) -> (r: Option<ApClientInfo>)
    ensures
        r == find_observed_from(observed@, mac.raw@, 0),
{
    let mut i: usize = 0;
    while i < observed.len()
        invariant
            i <= observed@.len(),
            find_observed_from(observed@, mac.raw@, 0) == find_observed_from(
                observed@,
                mac.raw@,
                i as nat,
            ),
        decreases observed@.len() - i,
    {
        match observed[i] {
            Some(client) => {
                if client.mac.same_as(mac) {
                    return Some(client);
                }
            },
            None => {},
        }
        i = i + 1;
    }
    None
}

/// How a door's record compares with what was observed of it.
pub fn door_transition(existing: Option<ApClientInfo>, found: Option<ApClientInfo>) -> (r:
    DoorTransition)
    ensures
        r == transition_of(existing, found),
{
    match (existing, found) {
        (Some(e), Some(f)) => {
            let same_ip = e.ip[0] == f.ip[0] && e.ip[1] == f.ip[1] && e.ip[2] == f.ip[2] && e.ip[3]
                == f.ip[3];
            if same_ip {
                assert(e.ip@ =~= f.ip@);
                assert(e.ip == f.ip);
                DoorTransition::Unchanged
            } else {
                DoorTransition::AddressChanged
            }
        },
        (None, Some(_)) => DoorTransition::Connected,
        (Some(_), None) => DoorTransition::Disconnected,
        (None, None) => DoorTransition::Unchanged,
    }
}

/// The hub's view of which doors are reachable and at what address.
pub struct ClientsSvc {
    clients: ClientsList,
}

impl ClientsSvc {
    pub fn new() -> (r: ClientsSvc)
        ensures
            r.clients() == ClientsList::new_spec(),
    {
        ClientsSvc { clients: ClientsList::new() }
    }

    pub closed spec fn clients(&self) -> ClientsList {
        self.clients
    }

    pub fn client_list(&self) -> (r: ClientsList)
        ensures
            r == self.clients(),
    {
        self.clients
    }

    /// Updates every door's record from the station list that the access
    /// point reports, matching by hardware address. Returns the new list
    /// when some door connected, disconnected or changed address.
    pub fn update_clients(&mut self, observed: &[Option<ApClientInfo>]) -> (r: Option<ClientsList>)
        ensures
            final(self).clients() == refreshed(old(self).clients(), observed@),
            r == (if any_changed(old(self).clients(), observed@) {
                Some(final(self).clients())
            } else {
                None::<ClientsList>
            }),
    {
        let mut any_change = false;
        let mut i: usize = 0;
        let ghost start = self.clients;
        while i < 2
            invariant
                0 <= i <= 2,
                i == 0 ==> self.clients == start && !any_change,
                i == 1 ==> self.clients.right_door == record_after(
                    start.right_door,
                    found_for_door(observed@, ClientType::RightDoor),
                ) && self.clients.left_door == start.left_door && any_change == door_changed(
                    start,
                    observed@,
                    ClientType::RightDoor,
                ),
                i == 2 ==> self.clients == refreshed(start, observed@) && any_change == any_changed(
                    start,
                    observed@,
                ),
            decreases 2 - i,
        {
            let client_type = CLIENT_TYPES[i];
            assert(i == 0 ==> client_type == ClientType::RightDoor);
            assert(i == 1 ==> client_type == ClientType::LeftDoor);
            let existing = self.clients.get_client_for_type(client_type);
            let found = match get_mac_for_client_type(client_type) {
                Some(mac) => find_client(observed, &mac),
                None => None,
            };
            match door_transition(existing, found) {
                DoorTransition::Unchanged => {},
                DoorTransition::Connected | DoorTransition::AddressChanged => {
                    match found {
                        Some(f) => self.clients.set_client_for_type(client_type, f),
                        None => {},
                    }
                    any_change = true;
                },
                DoorTransition::Disconnected => {
                    self.clients.remove_client_for_type(client_type);
                    any_change = true;
                },
            }
            i = i + 1;
        }
        if any_change {
            Some(self.clients)
        } else {
            None
        }
    }
}

} // verus!
