use vstd::prelude::*;

verus! {

/// A 128-bit globally unique identifier, held as the `u128` whose hexadecimal
/// digits read like the identifier's usual text form.
#[derive(Clone, Copy, Debug, PartialEq, Eq, Structural)]
pub struct Guid {
    pub value: u128,
}

/// Address data type: the service provider that an address belongs to.
pub const DPAID_SERVICE_PROVIDER: u128 = 0x07D916C0_E0AF_11CF_9C4E_00A0C905425E;

/// Address data type: an Internet address (host name or IP address).
pub const DPAID_INET: u128 = 0xC4A54DA0_E0AF_11CF_9C4E_00A0C905425E;

/// Address data type: a telephone number.
pub const DPAID_PHONE: u128 = 0x78EC89A0_E0AF_11CF_9C4E_00A0C905425E;

/// Instance identifier given to every session that this launcher describes.
pub const SESSION_GUID: u128 = 0xA88F6634_2BA5_4986_99B2_A65CB5EC739C;

/// The four bytes of `x`, least significant first.
pub open spec fn le_u32_bytes(x: int) -> Seq<u8> {
    seq![(x % 0x100) as u8, ((x / 0x100) % 0x100) as u8, ((x / 0x10000) % 0x100) as u8,
        ((x / 0x1000000) % 0x100) as u8]
}

/// The two bytes of `x`, least significant first.
pub open spec fn le_u16_bytes(x: int) -> Seq<u8> {
    seq![(x % 0x100) as u8, ((x / 0x100) % 0x100) as u8]
}

/// The eight bytes of `x`, most significant first.
pub open spec fn be_u64_bytes(x: int) -> Seq<u8> {
    seq![
        ((x / 0x100000000000000) % 0x100) as u8,
        ((x / 0x1000000000000) % 0x100) as u8,
        ((x / 0x10000000000) % 0x100) as u8,
        ((x / 0x100000000) % 0x100) as u8,
        ((x / 0x1000000) % 0x100) as u8,
        ((x / 0x10000) % 0x100) as u8,
        ((x / 0x100) % 0x100) as u8,
        (x % 0x100) as u8,
    ]
}

impl Guid {
    /// First field of the identifier: its 32 most significant bits.
    pub open spec fn data1(self) -> int {
        self.value as int / 0x1_0000_0000_0000_0000_0000_0000
    }

    /// Second field: the next 16 bits.
    pub open spec fn data2(self) -> int {
        (self.value as int / 0x1_0000_0000_0000_0000_0000) % 0x1_0000
    }

    /// Third field: the next 16 bits.
    pub open spec fn data3(self) -> int {
        (self.value as int / 0x1_0000_0000_0000_0000) % 0x1_0000
    }

    /// Fourth field: the 64 least significant bits.
    pub open spec fn data4(self) -> int {
        self.value as int % 0x1_0000_0000_0000_0000
    }

    /// The identifier as it lies in memory on a little-endian machine: the
    /// first three fields little-endian, the fourth as eight bytes in order.
    pub open spec fn spec_memory_bytes(self) -> Seq<u8> {
        le_u32_bytes(self.data1()) + le_u16_bytes(self.data2()) + le_u16_bytes(self.data3())
            + be_u64_bytes(self.data4())
    }

    /// The identifier whose value is `value`.
    pub fn from_u128(value: u128) -> (g: Guid)
        ensures
            g.value == value,
    {
        Guid { value }
    }

    /// The 16 bytes of the identifier as it lies in memory.
    pub fn memory_bytes(&self) -> (bytes: Vec<u8>)
        ensures
            bytes@ == self.spec_memory_bytes(),
            bytes@.len() == 16,
    {
        let v = self.value;
        let d1: u128 = v / 0x1_0000_0000_0000_0000_0000_0000;
        let d2: u128 = (v / 0x1_0000_0000_0000_0000_0000) % 0x1_0000;
        let d3: u128 = (v / 0x1_0000_0000_0000_0000) % 0x1_0000;
        let d4: u128 = v % 0x1_0000_0000_0000_0000;
        let mut bytes: Vec<u8> = Vec::new();
        bytes.push((d1 % 0x100) as u8);
        bytes.push(((d1 / 0x100) % 0x100) as u8);
        bytes.push(((d1 / 0x10000) % 0x100) as u8);
        bytes.push(((d1 / 0x1000000) % 0x100) as u8);
        bytes.push((d2 % 0x100) as u8);
        bytes.push(((d2 / 0x100) % 0x100) as u8);
        bytes.push((d3 % 0x100) as u8);
        bytes.push(((d3 / 0x100) % 0x100) as u8);
        bytes.push(((d4 / 0x100000000000000) % 0x100) as u8);
        bytes.push(((d4 / 0x1000000000000) % 0x100) as u8);
        bytes.push(((d4 / 0x10000000000) % 0x100) as u8);
        bytes.push(((d4 / 0x100000000) % 0x100) as u8);
        bytes.push(((d4 / 0x1000000) % 0x100) as u8);
        bytes.push(((d4 / 0x10000) % 0x100) as u8);
        bytes.push(((d4 / 0x100) % 0x100) as u8);
        bytes.push((d4 % 0x100) as u8);
        assert(bytes@ =~= self.spec_memory_bytes());
        bytes
    }
}

} // verus!
