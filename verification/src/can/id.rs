//! Identifiers of CAN frames and their priority.
use core::cmp::Ordering;
use vstd::prelude::*;
use vstd::std_specs::cmp::PartialOrdSpecImpl;
use vstd::std_specs::convert::FromSpecImpl;

verus! {

/// `embedded_can::StandardId::new` and `as_raw`: an identifier is made of exactly the numbers of at
/// most 11 bits, and keeps its number.
#[verifier::external_body]
fn standard_number(raw: u16) -> (number: Option<u16>)
    ensures
        number == if raw <= 0x7ff {
            Some(raw)
        } else {
            None
        },
{
    match embedded_can::StandardId::new(raw) {
        Some(id) => Some(id.as_raw()),
        None => None,
    }
}

/// `embedded_can::ExtendedId::new` and `as_raw`: an identifier is made of exactly the numbers of at
/// most 29 bits, and keeps its number.
#[verifier::external_body]
fn extended_number(raw: u32) -> (number: Option<u32>)
    ensures
        number == if raw <= 0x1fff_ffff {
            Some(raw)
        } else {
            None
        },
{
    match embedded_can::ExtendedId::new(raw) {
        Some(id) => Some(id.as_raw()),
        None => None,
    }
}

/// `embedded_can::ExtendedId::standard_id`: the base of an extended identifier is its upper 11 bits.
#[verifier::external_body]
fn base_number(raw: u32) -> (base: u16)
    requires
        raw <= 0x1fff_ffff,
    ensures
        base == raw / 0x4_0000,
{
    embedded_can::ExtendedId::new(raw).unwrap().standard_id().as_raw()
}

/// Standard identifier of 11 bits.
#[derive(Clone, Copy, Debug, PartialEq, Eq, Structural)]
pub struct StandardId {
    /// The number of the identifier.
    pub raw: u16,
}

impl StandardId {
    /// Whether the number fits in 11 bits.
    pub open spec fn wf(self) -> bool {
        self.raw <= 0x7ff
    }

    /// Makes an identifier of a number that fits in 11 bits.
    pub fn new(raw: u16) -> (id: Option<Self>)
        ensures
            id == if raw <= 0x7ff {
                Some(StandardId { raw })
            } else {
                None
            },
    {
        match standard_number(raw) {
            Some(raw) => Some(StandardId { raw }),
            None => None,
        }
    }

    /// The number of the identifier.
    pub fn as_raw(&self) -> (raw: u16)
        ensures
            raw == self.raw,
    {
        self.raw
    }
}

/// Extended identifier of 29 bits.
#[derive(Clone, Copy, Debug, PartialEq, Eq, Structural)]
pub struct ExtendedId {
    /// The number of the identifier.
    pub raw: u32,
}

impl ExtendedId {
    /// Whether the number fits in 29 bits.
    pub open spec fn wf(self) -> bool {
        self.raw <= 0x1fff_ffff
    }

    /// Makes an identifier of a number that fits in 29 bits.
    pub fn new(raw: u32) -> (id: Option<Self>)
        ensures
            id == if raw <= 0x1fff_ffff {
                Some(ExtendedId { raw })
            } else {
                None
            },
    {
        match extended_number(raw) {
            Some(raw) => Some(ExtendedId { raw }),
            None => None,
        }
    }

    /// The number of the identifier.
    pub fn as_raw(&self) -> (raw: u32)
        ensures
            raw == self.raw,
    {
        self.raw
    }

    /// The standard identifier in the upper 11 bits.
    pub fn standard_id(&self) -> (base: StandardId)
        requires
            self.wf(),
        ensures
            base.raw == self.raw / 0x4_0000,
            base.wf(),
    {
        StandardId { raw: base_number(self.raw) }
    }
}

/// Identifier of a CAN frame.
#[derive(Clone, Copy, Debug, PartialEq, Eq, Structural)]
pub enum Id {
    /// Standard identifier.
    Standard(StandardId),
    /// Extended identifier.
    Extended(ExtendedId),
}

impl Id {
    /// Whether the number of the identifier fits in its width.
    pub open spec fn wf(self) -> bool {
        match self {
            Id::Standard(id) => id.wf(),
            Id::Extended(id) => id.wf(),
        }
    }

    /// The place of the identifier in the order in which frames win the bus: base identifiers are
    /// compared first, then a standard identifier comes before an extended one, then the lower bits
    /// of extended identifiers are compared.
    pub open spec fn rank(self) -> int {
        match self {
            Id::Standard(id) => id.raw * 0x8_0000,
            Id::Extended(id) => (id.raw as int / 0x4_0000) * 0x8_0000 + 0x4_0000 + id.raw as int
                % 0x4_0000,
        }
    }
}

/// Identifier of a CAN frame as it stands in an identifier register, with the kind of the frame.
///
/// The order is that of priority. Lower identifiers have a higher priority. Standard frames have a
/// higher priority than extended frames of the same base identifier, and data frames a higher
/// priority than remote frames of the same identifier.
#[derive(Clone, Copy, Debug, PartialEq, Eq, Structural)]
pub struct IdReg(pub u32);

/// Offset of a standard identifier.
pub const STANDARD_SHIFT: u32 = 21;

/// Offset of an extended identifier.
pub const EXTENDED_SHIFT: u32 = 3;

/// The identifier is an extended one.
pub const IDE_MASK: u32 = 0x0000_0004;

/// The frame is a remote frame.
pub const RTR_MASK: u32 = 0x0000_0002;

/// The register that holds an identifier, of a data frame.
pub open spec fn register_of(id: Id) -> IdReg {
    match id {
        Id::Standard(id) => IdReg((id.raw as u32) << STANDARD_SHIFT),
        Id::Extended(id) => IdReg((id.raw << EXTENDED_SHIFT) | IDE_MASK),
    }
}

/// The identifier that a register holds.
pub open spec fn id_of(reg: IdReg) -> Id {
    if reg.0 & IDE_MASK != 0 {
        Id::Extended(ExtendedId { raw: reg.0 >> EXTENDED_SHIFT })
    } else {
        Id::Standard(StandardId { raw: (reg.0 >> STANDARD_SHIFT) as u16 })
    }
}

/// Whether a register belongs to a remote frame.
pub open spec fn is_remote(reg: IdReg) -> bool {
    reg.0 & RTR_MASK != 0
}

/// The place of a register in the order in which frames win the bus: the identifier first, then
/// data frames before remote frames.
pub open spec fn place(reg: IdReg) -> int {
    id_of(reg).rank() * 2 + if is_remote(reg) {
        1int
    } else {
        0int
    }
}

/// The comparison by priority of two places: what comes first is greater.
pub open spec fn by_place(a: int, b: int) -> Ordering {
    if a < b {
        Ordering::Greater
    } else if a == b {
        Ordering::Equal
    } else {
        Ordering::Less
    }
}

fn lower_first(a: u32, b: u32, tie: Ordering) -> (order: Ordering)
    ensures
        order == if a < b {
            Ordering::Greater
        } else if a > b {
            Ordering::Less
        } else {
            tie
        },
{
    if a < b {
        Ordering::Greater
    } else if a > b {
        Ordering::Less
    } else {
        tie
    }
}

proof fn lemma_numbers_fit(word: u32)
    by (bit_vector)
    ensures
        word >> EXTENDED_SHIFT <= 0x1fff_ffff,
        word >> STANDARD_SHIFT <= 0x7ff,
{
}

impl IdReg {
    /// The register of a standard identifier.
    pub fn new_standard(id: StandardId) -> (reg: Self)
        ensures
            reg == register_of(Id::Standard(id)),
    {
        IdReg((id.as_raw() as u32) << STANDARD_SHIFT)
    }

    /// The register of an extended identifier.
    pub fn new_extended(id: ExtendedId) -> (reg: Self)
        ensures
            reg == register_of(Id::Extended(id)),
    {
        IdReg((id.as_raw() << EXTENDED_SHIFT) | IDE_MASK)
    }

    /// The identifier and kind in the contents of a mailbox register, without the request to send.
    pub fn from_register(reg: u32) -> (id: Self)
        ensures
            id == IdReg(reg & 0xffff_fffe),
    {
        IdReg(reg & 0xffff_fffe)
    }

    /// The register of a frame with an identifier, remote or not.
    pub fn of_frame(id: &Id, rtr: bool) -> (reg: Self)
        ensures
            reg == frame_register(*id, rtr),
    {
        let reg = IdReg::from(id);
        IdReg(reg.0 | crate::bits::bits_if(rtr, RTR_MASK))
    }

    /// The identifier.
    pub fn to_id(self) -> (id: Id)
        ensures
            id == id_of(self),
            id.wf(),
    {
        proof {
            lemma_numbers_fit(self.0);
        }
        if self.is_extended() {
            Id::Extended(ExtendedId { raw: self.0 >> EXTENDED_SHIFT })
        } else {
            Id::Standard(StandardId { raw: (self.0 >> STANDARD_SHIFT) as u16 })
        }
    }

    /// The identifier, made by way of the constructors.
    pub fn id(self) -> (id: Id)
        ensures
            id == id_of(self),
            id.wf(),
    {
        proof {
            lemma_numbers_fit(self.0);
        }
        if self.is_extended() {
            match ExtendedId::new(self.0 >> EXTENDED_SHIFT) {
                Some(id) => Id::Extended(id),
                None => self.to_id(),
            }
        } else {
            match StandardId::new((self.0 >> STANDARD_SHIFT) as u16) {
                Some(id) => Id::Standard(id),
                None => self.to_id(),
            }
        }
    }

    /// Tells whether the identifier is an extended one.
    pub fn is_extended(self) -> (extended: bool)
        ensures
            extended == (self.0 & IDE_MASK != 0),
    {
        self.0 & IDE_MASK != 0
    }

    /// Tells whether the frame is a remote frame.
    pub fn rtr(self) -> (remote: bool)
        ensures
            remote == is_remote(self),
    {
        self.0 & RTR_MASK != 0
    }

    /// Compares by priority.
    pub fn cmp(&self, other: &Self) -> (order: Ordering)
        ensures
            order == by_place(place(*self), place(*other)),
    {
        // When the identifiers match, data frames have priority over remote frames.
        let rtr = if self.rtr() == other.rtr() {
            Ordering::Equal
        } else if self.rtr() {
            Ordering::Less
        } else {
            Ordering::Greater
        };
        match (self.to_id(), other.to_id()) {
            (Id::Standard(a), Id::Standard(b)) => lower_first(
                u32::from(a.as_raw()),
                u32::from(b.as_raw()),
                rtr,
            ),
            (Id::Extended(a), Id::Extended(b)) => lower_first(a.as_raw(), b.as_raw(), rtr),
            // Standard frames have priority over extended frames if their base identifiers match.
            (Id::Standard(a), Id::Extended(b)) => lower_first(
                u32::from(a.as_raw()),
                u32::from(b.standard_id().as_raw()),
                Ordering::Greater,
            ),
            (Id::Extended(a), Id::Standard(b)) => lower_first(
                u32::from(a.standard_id().as_raw()),
                u32::from(b.as_raw()),
                Ordering::Less,
            ),
        }
    }
}

/// The register of a frame with an identifier, remote or not.
pub open spec fn frame_register(id: Id, rtr: bool) -> IdReg {
    IdReg(register_of(id).0 | crate::bits::when(rtr, RTR_MASK))
}

impl FromSpecImpl<&Id> for IdReg {
    open spec fn obeys_from_spec() -> bool {
        true
    }

    open spec fn from_spec(id: &Id) -> IdReg {
        register_of(*id)
    }
}

impl From<&Id> for IdReg {
    fn from(id: &Id) -> (reg: IdReg) {
        match id {
            Id::Standard(id) => IdReg::new_standard(*id),
            Id::Extended(id) => IdReg::new_extended(*id),
        }
    }
}

impl FromSpecImpl<IdReg> for Id {
    open spec fn obeys_from_spec() -> bool {
        true
    }

    open spec fn from_spec(reg: IdReg) -> Id {
        id_of(reg)
    }
}

impl From<IdReg> for Id {
    fn from(reg: IdReg) -> (id: Id) {
        reg.id()
    }
}

impl PartialOrdSpecImpl for IdReg {
    open spec fn obeys_partial_cmp_spec() -> bool {
        true
    }

    open spec fn partial_cmp_spec(&self, other: &Self) -> Option<Ordering> {
        Some(by_place(place(*self), place(*other)))
    }
}

impl PartialOrd for IdReg {
    fn partial_cmp(&self, other: &Self) -> (order: Option<Ordering>) {
        Some(self.cmp(other))
    }
}

} // verus!
