//! BLE transport: which peripheral is a Passport, and where on it to write and
//! listen.
//!
//! The Passport Prime advertises the Nordic UART Service (NUS):
//! - service `6E400001-B5A3-F393-E0A9-E50E24DCCA9E`
//! - RX characteristic `6E400002-...` (bridge to device)
//! - TX characteristic `6E400003-...` (device to bridge)

use crate::text;
use vstd::prelude::*;

verus! {

/// The Nordic UART Service.
pub const NUS_SERVICE_UUID: u128 = 0x6E400001_B5A3_F393_E0A9_E50E24DCCA9E;

/// The characteristic to write frames to.
pub const NUS_RX_CHAR_UUID: u128 = 0x6E400002_B5A3_F393_E0A9_E50E24DCCA9E;

/// The characteristic that frames come from.
pub const NUS_TX_CHAR_UUID: u128 = 0x6E400003_B5A3_F393_E0A9_E50E24DCCA9E;

/// Why no Passport is connected.
#[derive(Clone, Copy, Debug, PartialEq, Eq, Structural)]
pub enum BleError {
    /// None of the peripherals seen in that many seconds is the one wanted.
    NoPassport { scan_seconds: u64 },
    /// The peripheral has no characteristic to write to.
    RxNotFound,
    /// The peripheral has no characteristic to listen to.
    TxNotFound,
}

// ---------------------------------------------------------------------------
// Finding the Passport
// ---------------------------------------------------------------------------

/// What a peripheral says of itself.
#[derive(Debug)]
pub struct PeripheralProperties {
    pub address: String,
    pub local_name: Option<String>,
    pub services: Vec<u128>,
}

/// The contents of a `PeripheralProperties`.
#[verifier::ext_equal]
pub struct PropertiesView {
    pub address: Seq<char>,
    pub local_name: Option<Seq<char>>,
    pub services: Seq<u128>,
}

impl View for PeripheralProperties {
    type V = PropertiesView;

    open spec fn view(&self) -> PropertiesView {
        PropertiesView {
            address: self.address@,
            local_name: match self.local_name {
                Some(name) => Some(name@),
                None => None,
            },
            services: self.services@,
        }
    }
}

/// Whether the peripheral is the one wanted: the one at the address `mac` where
/// that is given, letter case aside, and else any that advertises NUS. A
/// peripheral that says nothing of itself has no address and advertises nothing.
pub open spec fn is_wanted(properties: Option<PropertiesView>, mac: Option<Seq<char>>) -> bool {
    match mac {
        Some(m) => {
            let address = match properties {
                Some(p) => p.address,
                None => Seq::empty(),
            };
            text::ascii_lowercase(address) == text::ascii_lowercase(m)
        },
        None => match properties {
            Some(p) => p.services.contains(NUS_SERVICE_UUID),
            None => false,
        },
    }
}

/// The view of what a peripheral says of itself.
pub open spec fn properties_view(properties: Option<PeripheralProperties>) -> Option<
    PropertiesView,
> {
    match properties {
        Some(p) => Some(p@),
        None => None,
    }
}

/// The view of an address.
pub open spec fn mac_view(mac: Option<&str>) -> Option<Seq<char>> {
    match mac {
        Some(m) => Some(m@),
        None => None,
    }
}

fn contains_uuid(uuids: &Vec<u128>, uuid: u128) -> (r: bool)
    ensures
        r == uuids@.contains(uuid),
{
    first_uuid(uuids, uuid).is_some()
}

/// Whether the peripheral that says this of itself is the one wanted.
pub fn is_passport(properties: &Option<PeripheralProperties>, mac: Option<&str>) -> (r: bool)
    ensures
        r == is_wanted(properties_view(*properties), mac_view(mac)),
{
    match mac {
        Some(m) => match properties {
            Some(p) => text::eq_ignore_ascii_case(p.address.as_str(), m),
            None => {
                let address = String::new();
                assert(address@ =~= Seq::empty());
                text::eq_ignore_ascii_case(address.as_str(), m)
            },
        },
        None => match properties {
            Some(p) => contains_uuid(&p.services, NUS_SERVICE_UUID),
            None => false,
        },
    }
}

/// The position of the first peripheral that is the one wanted, among those
/// seen in `scan_seconds` seconds.
pub fn find_passport(
    peripherals: &Vec<Option<PeripheralProperties>>,
    mac: Option<&str>,
    scan_seconds: u64,
) -> (r: Result<usize, BleError>)
    ensures
        match r {
            Ok(i) => {
                &&& i < peripherals.len()
                &&& is_wanted(properties_view(peripherals[i as int]), mac_view(mac))
                &&& forall|j: int|
                    0 <= j < i ==> !is_wanted(
                        properties_view(#[trigger] peripherals[j]),
                        mac_view(mac),
                    )
            },
            Err(e) => {
                &&& e == BleError::NoPassport { scan_seconds }
                &&& forall|j: int|
                    0 <= j < peripherals.len() ==> !is_wanted(
                        properties_view(#[trigger] peripherals[j]),
                        mac_view(mac),
                    )
            },
        },
{
    let mut i: usize = 0;
    while i < peripherals.len()
        invariant
            i <= peripherals.len(),
            forall|j: int|
                0 <= j < i ==> !is_wanted(
                    properties_view(#[trigger] peripherals[j]),
                    mac_view(mac),
                ),
        decreases peripherals.len() - i,
    {
        if is_passport(&peripherals[i], mac) {
            return Ok(i);
        }
        i = i + 1;
    }
    Err(BleError::NoPassport { scan_seconds })
}

/// A given address decides alone, in full: the peripheral is wanted just where
/// its address has the same length and, at every position, the same character or
/// the same ASCII letter in the other case, which lies 32 code points off. One
/// that says nothing of itself has the empty address.
pub proof fn law_given_address_decides(p: PropertiesView, m: Seq<char>)
    ensures
        is_wanted(Some(p), Some(m)) <==> (p.address.len() == m.len() && forall|i: int|
            0 <= i < m.len() ==> {
                let c = #[trigger] p.address[i] as u32;
                let d = m[i] as u32;
                c == d || (65 <= c <= 90 && d == c + 32) || (65 <= d <= 90 && c == d + 32)
            }),
        is_wanted(None, Some(m)) <==> m.len() == 0,
{
    text::law_same_but_for_ascii_case(p.address, m);
    text::law_same_but_for_ascii_case(Seq::empty(), m);
    if p.address.len() == m.len() && forall|i: int|
        0 <= i < m.len() ==> {
            let c = #[trigger] p.address[i] as u32;
            let d = m[i] as u32;
            c == d || (65 <= c <= 90 && d == c + 32) || (65 <= d <= 90 && c == d + 32)
        } {
        assert forall|i: int| 0 <= i < p.address.len() implies text::differ_in_case_at_most(
            #[trigger] p.address[i],
            m[i],
        ) by {}
    }
}

/// Two addresses that differ otherwise than in letter case are never both
/// wanted.
pub proof fn law_one_address_is_wanted(
    p: PropertiesView,
    q: PropertiesView,
    m: Seq<char>,
    i: int,
)
    requires
        is_wanted(Some(p), Some(m)),
        is_wanted(Some(q), Some(m)),
    ensures
        p.address.len() == q.address.len(),
        0 <= i < p.address.len() ==> {
            let c = p.address[i] as u32;
            let d = q.address[i] as u32;
            c == d || (65 <= c <= 90 && d == c + 32) || (65 <= d <= 90 && c == d + 32)
        },
{
    law_given_address_decides(p, m);
    law_given_address_decides(q, m);
}

/// The letter case of a given address does not matter, nor does that of the
/// address that a peripheral gives.
pub proof fn law_address_case_is_ignored(
    p: PropertiesView,
    q: PropertiesView,
    m: Seq<char>,
    n: Seq<char>,
)
    requires
        text::ascii_lowercase(p.address) == text::ascii_lowercase(q.address),
        text::ascii_lowercase(m) == text::ascii_lowercase(n),
    ensures
        is_wanted(Some(p), Some(m)) == is_wanted(Some(q), Some(n)),
{
}

/// Without a given address, the peripherals that advertise NUS are wanted, and
/// no others, whatever else they say of themselves.
pub proof fn law_nus_decides_without_an_address(p: PropertiesView)
    ensures
        is_wanted(Some(p), None) <==> exists|i: int|
            0 <= i < p.services.len() && #[trigger] p.services[i]
                == 0x6E400001_B5A3_F393_E0A9_E50E24DCCA9E,
        !is_wanted(None, None),
{
}

/// What a peripheral says of itself, and a given address, are judged as they
/// stand.
pub proof fn law_properties_are_judged_as_they_stand(
    p: PeripheralProperties,
    mac: &str,
    i: int,
)
    ensures
        properties_view(Some(p)) is Some,
        properties_view(Some(p))->0.address == p.address@,
        properties_view(Some(p))->0.services.len() == p.services.len(),
        0 <= i < p.services.len() ==> properties_view(Some(p))->0.services[i] == p.services[i],
        properties_view(None) is None,
        mac_view(Some(mac)) == Some(mac@),
        mac_view(None) is None,
{
}

// ---------------------------------------------------------------------------
// Connecting to it
// ---------------------------------------------------------------------------

/// Whether `i` is the first position of `uuid` among `uuids`.
pub open spec fn is_first(uuids: Seq<u128>, uuid: u128, i: int) -> bool {
    &&& 0 <= i < uuids.len()
    &&& uuids[i] == uuid
    &&& forall|j: int| 0 <= j < i ==> uuids[j] != uuid
}

/// A first position is that of the characteristic asked for, and no later than
/// any other position of it.
pub proof fn law_first_position_is_earliest(uuids: Seq<u128>, uuid: u128, i: int, j: int)
    requires
        is_first(uuids, uuid, i),
        0 <= j < uuids.len(),
        uuids[j] == uuid,
    ensures
        0 <= i <= j,
        uuids[i] == uuid,
{
}

fn first_uuid(uuids: &Vec<u128>, uuid: u128) -> (r: Option<usize>)
    ensures
        match r {
            Some(i) => is_first(uuids@, uuid, i as int) && uuids[i as int] == uuid,
            None => !uuids@.contains(uuid),
        },
        r is Some ==> uuids@.contains(uuid),
{
    let mut i: usize = 0;
    while i < uuids.len()
        invariant
            i <= uuids.len(),
            forall|j: int| 0 <= j < i ==> uuids[j] != uuid,
        decreases uuids.len() - i,
    {
        if uuids[i] == uuid {
            assert(uuids@[i as int] == uuid);
            return Some(i);
        }
        i = i + 1;
    }
    None
}

/// Where on a connected Passport to write frames, and where they come from:
/// positions among its characteristics.
#[derive(Clone, Copy, Debug, PartialEq, Eq, Structural)]
pub struct NusSession {
    pub rx_char: usize,
    pub tx_char: usize,
}

impl NusSession {
    /// The session on a peripheral with the given characteristics, in the order
    /// in which it lists them.
    pub fn connect(characteristics: &Vec<u128>) -> (r: Result<NusSession, BleError>)
        ensures
            match r {
                Ok(session) => {
                    &&& is_first(characteristics@, NUS_RX_CHAR_UUID, session.rx_char as int)
                    &&& is_first(characteristics@, NUS_TX_CHAR_UUID, session.tx_char as int)
                    &&& characteristics[session.rx_char as int]
                        == 0x6E400002_B5A3_F393_E0A9_E50E24DCCA9E
                    &&& characteristics[session.tx_char as int]
                        == 0x6E400003_B5A3_F393_E0A9_E50E24DCCA9E
                },
                Err(e) => if !characteristics@.contains(NUS_RX_CHAR_UUID) {
                    e == BleError::RxNotFound
                } else {
                    e == BleError::TxNotFound && !characteristics@.contains(NUS_TX_CHAR_UUID)
                },
            },
    {
        let rx_char = match first_uuid(characteristics, NUS_RX_CHAR_UUID) {
            Some(i) => i,
            None => {
                return Err(BleError::RxNotFound);
            },
        };
        let tx_char = match first_uuid(characteristics, NUS_TX_CHAR_UUID) {
            Some(i) => i,
            None => {
                return Err(BleError::TxNotFound);
            },
        };
        Ok(NusSession { rx_char, tx_char })
    }
}

} // verus!
