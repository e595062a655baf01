#![allow(non_camel_case_types, non_snake_case)]
use vstd::prelude::*;
use crate::status::{Status, ArgumentRangeError};
use crate::error::{Api, NvapiResult, Error, spec_with_api, with_api};
use crate::gpu::PhysicalGpu;

verus! {

/// The value the deprecated speed field must hold.
pub const NVAPI_I2C_SPEED_DEPRECATED: u32 = 0xffff;

/// Raw I2C speed (`I2cSpeed`).
pub type NV_I2C_SPEED = i32;

pub const NVAPI_I2C_SPEED_DEFAULT: i32 = 0;
pub const NVAPI_I2C_SPEED_3KHZ: i32 = 1;
pub const NVAPI_I2C_SPEED_10KHZ: i32 = 2;
pub const NVAPI_I2C_SPEED_33KHZ: i32 = 3;
pub const NVAPI_I2C_SPEED_100KHZ: i32 = 4;
pub const NVAPI_I2C_SPEED_200KHZ: i32 = 5;
pub const NVAPI_I2C_SPEED_400KHZ: i32 = 6;

/// What an I2C transfer asks of the driver (the fields of `NV_I2C_INFO_V3`
/// other than the buffers, which are given by their lengths).
#[derive(Copy, Clone, Debug, PartialEq, Eq, Structural)]
pub struct I2cRequest {
    pub displayMask: u32,
    pub bIsDDCPort: u8,
    /// The 7-bit address shifted left by one.
    pub i2cDevAddress: u8,
    pub regAddrSize: u32,
    pub cbSize: u32,
    pub i2cSpeed: u32,
    pub i2cSpeedKhz: NV_I2C_SPEED,
    pub portId: u8,
    pub bIsPortIdSet: u32,
}

/// The request of a transfer (see `PhysicalGpu::i2c_request`).
pub open spec fn spec_i2c_request(
    display_mask: u32, port: Option<u8>, port_is_ddc: bool, address: u8,
    register_len: usize, data_len: usize, speed: NV_I2C_SPEED,
) -> I2cRequest {
    I2cRequest {
        displayMask: display_mask,
        bIsDDCPort: if port_is_ddc { 1u8 } else { 0u8 },
        i2cDevAddress: (address << 1u8) as u8,
        regAddrSize: register_len as u32,
        cbSize: data_len as u32,
        i2cSpeed: NVAPI_I2C_SPEED_DEPRECATED,
        i2cSpeedKhz: speed,
        portId: match port { Some(p) => p, None => 0u8 },
        bIsPortIdSet: if port is Some { 1u32 } else { 0u32 },
    }
}

impl I2cRequest {
    /// Whether the register address pointer is to be null: exactly when no
    /// register bytes are sent.
    pub fn register_is_null(&self) -> (r: bool)
        ensures
            r == (self.regAddrSize == 0),
    {
        self.regAddrSize == 0
    }
}

impl PhysicalGpu {
    /// The request of a transfer of `data_len` bytes at the register given by
    /// `register_len` bytes: the address shifted to 8 bits, the deprecated speed
    /// field set as the driver asks, the port set where one is given.
    pub fn i2c_request(
        display_mask: u32, port: Option<u8>, port_is_ddc: bool, address: u8,
        register_len: usize, data_len: usize, speed: NV_I2C_SPEED,
    ) -> (r: I2cRequest)
        ensures
            r == spec_i2c_request(display_mask, port, port_is_ddc, address, register_len, data_len, speed),
    {
        let (portId, bIsPortIdSet) = match port {
            Some(p) => (p, 1u32),
            None => (0u8, 0u32),
        };
        I2cRequest {
            displayMask: display_mask,
            bIsDDCPort: if port_is_ddc { 1u8 } else { 0u8 },
            i2cDevAddress: address << 1u8,
            regAddrSize: register_len as u32,
            cbSize: data_len as u32,
            i2cSpeed: NVAPI_I2C_SPEED_DEPRECATED,
            i2cSpeedKhz: speed,
            portId,
            bIsPortIdSet,
        }
    }

    /// The outcome of a read: on success, the data size of the request as the
    /// driver left it after the call (`reply` carries that request).
    pub fn i2c_read(&self, reply: Result<I2cRequest, Status>) -> (r: NvapiResult<usize>)
        ensures
            r == spec_with_api(match reply { Ok(after) => Ok(after.cbSize as usize), Err(s) => Err(s) }, Api::NvAPI_I2CRead),
    {
        let res = match reply {
            Ok(after) => Ok(after.cbSize as usize),
            Err(s) => Err(s),
        };
        with_api(res, Api::NvAPI_I2CRead)
    }

    /// The outcome of a write.
    pub fn i2c_write(&self, reply: Result<(), Status>) -> (r: NvapiResult<()>)
        ensures
            r == spec_with_api(reply, Api::NvAPI_I2CWrite),
    {
        with_api(reply, Api::NvAPI_I2CWrite)
    }
}

/// An I2C bus of a display of a GPU, with the settings of its transfers.
pub struct I2c<G> {
    pub inner: G,
    pub display_mask: u32,
    pub port: Option<u8>,
    pub port_is_ddc: bool,
    pub address: u8,
    pub speed: NV_I2C_SPEED,
}

impl<G> I2c<G> {
    /// A bus with no port, address 0, at 100 kHz.
    pub fn new(gpu: G, display_mask: u32) -> (r: Self)
        ensures
            r.inner == gpu,
            r.display_mask == display_mask,
            r.port is None,
            r.port_is_ddc == false,
            r.address == 0,
            r.speed == NVAPI_I2C_SPEED_100KHZ,
    {
        I2c {
            inner: gpu,
            display_mask,
            port: None,
            port_is_ddc: false,
            address: 0,
            speed: NVAPI_I2C_SPEED_100KHZ,
        }
    }

    pub fn set_display_mask(&mut self, display_mask: u32)
        ensures
            *final(self) == (I2c { display_mask, ..*old(self) }),
    {
        self.display_mask = display_mask;
    }

    pub fn set_address(&mut self, address: u8)
        ensures
            *final(self) == (I2c { address, ..*old(self) }),
    {
        self.address = address;
    }

    pub fn set_port(&mut self, port: Option<u8>, port_is_ddc: bool)
        ensures
            *final(self) == (I2c { port, port_is_ddc, ..*old(self) }),
    {
        self.port = port;
        self.port_is_ddc = port_is_ddc;
    }

    pub fn set_speed(&mut self, speed: NV_I2C_SPEED)
        ensures
            *final(self) == (I2c { speed, ..*old(self) }),
    {
        self.speed = speed;
    }

    /// Sets a 7-bit slave address (its low byte); a 10-bit address is refused.
    pub fn set_slave_address(&mut self, addr: u16, tenbit: bool) -> (r: Result<(), Error>)
        ensures
            tenbit ==> r == Err::<(), Error>(Error::ArgumentRange(ArgumentRangeError)) && *final(self) == *old(self),
            !tenbit ==> r == Ok::<(), Error>(()) && *final(self) == (I2c { address: addr as u8, ..*old(self) }),
    {
        if tenbit {
            Err(Error::ArgumentRange(ArgumentRangeError))
        } else {
            self.address = addr as u8;
            Ok(())
        }
    }

    /// The request of a transfer on this bus.
    pub fn request(&self, register_len: usize, data_len: usize) -> (r: I2cRequest)
        ensures
            r == spec_i2c_request(self.display_mask, self.port, self.port_is_ddc, self.address, register_len, data_len, self.speed),
    {
        PhysicalGpu::i2c_request(self.display_mask, self.port, self.port_is_ddc, self.address, register_len, data_len, self.speed)
    }
}

impl I2c<PhysicalGpu> {
    /// The outcome of a read on this bus (see `PhysicalGpu::i2c_read`).
    pub fn nvapi_read(&self, reply: Result<I2cRequest, Status>) -> (r: NvapiResult<usize>)
        ensures
            r == spec_with_api(match reply { Ok(after) => Ok(after.cbSize as usize), Err(s) => Err(s) }, Api::NvAPI_I2CRead),
    {
        self.inner.i2c_read(reply)
    }

    /// The outcome of a write on this bus.
    pub fn nvapi_write(&self, reply: Result<(), Status>) -> (r: NvapiResult<()>)
        ensures
            r == spec_with_api(reply, Api::NvAPI_I2CWrite),
    {
        self.inner.i2c_write(reply)
    }
}

/// One transfer on a bus: its direction, the request, the register bytes and
/// the data bytes (for a read, a zeroed buffer of the size to read).
#[derive(Clone, Debug, PartialEq, Eq)]
pub struct I2cTransfer {
    pub read: bool,
    pub request: I2cRequest,
    pub register: Vec<u8>,
    pub data: Vec<u8>,
}

/// Whether `t` is the transfer of `data` at `register` in the direction `read`
/// on `bus`, with the request of the bus for those lengths.
pub open spec fn is_transfer<G>(t: I2cTransfer, bus: I2c<G>, read: bool, register: Seq<u8>, data: Seq<u8>) -> bool {
    &&& t.read == read
    &&& t.register@ =~= register
    &&& t.data@ =~= data
    &&& t.request == spec_i2c_request(
        bus.display_mask, bus.port, bus.port_is_ddc, bus.address, register.len() as usize, data.len() as usize, bus.speed)
}

/// A zeroed buffer of `n` bytes.
fn zeroes(n: usize) -> (r: Vec<u8>)
    ensures
        r@ == Seq::new(n as nat, |i: int| 0u8),
{
    let mut v: Vec<u8> = Vec::new();
    let mut i: usize = 0;
    while i < n
        invariant
            i <= n,
            v@ == Seq::new(i as nat, |j: int| 0u8),
        decreases n - i,
    {
        v.push(0u8);
        i += 1;
        assert(v@ =~= Seq::new(i as nat, |j: int| 0u8));
    }
    v
}

/// The first data byte of a finished read.
pub open spec fn spec_read_byte(read: NvapiResult<usize>, data: Seq<u8>) -> Result<u8, Error> {
    match read {
        Ok(_) => Ok(data[0]),
        Err(e) => Err(Error::Nvapi(e)),
    }
}

/// The SMBus word of a finished read (the first byte in both halves).
pub open spec fn spec_read_word(read: NvapiResult<usize>, data: Seq<u8>) -> Result<u16, Error> {
    match read {
        Ok(_) => Ok(((data[0] as u16) | ((data[0] as u16) << 8u16)) as u16),
        Err(e) => Err(Error::Nvapi(e)),
    }
}

impl<G> I2c<G> {
    /// A transfer on this bus.
    pub fn transfer(&self, read: bool, register: Vec<u8>, data: Vec<u8>) -> (r: I2cTransfer)
        ensures
            is_transfer(r, *self, read, register@, data@),
    {
        let request = self.request(register.len(), data.len());
        I2cTransfer { read, request, register, data }
    }

    /// A plain read of `len` bytes.
    pub fn i2c_read(&self, len: usize) -> (r: I2cTransfer)
        ensures
            is_transfer(r, *self, true, seq![], Seq::new(len as nat, |i: int| 0u8)),
    {
        let register: Vec<u8> = Vec::new();
        assert(register@ =~= seq![]);
        self.transfer(true, register, zeroes(len))
    }

    /// A plain write of `value`.
    pub fn i2c_write(&self, value: Vec<u8>) -> (r: I2cTransfer)
        ensures
            is_transfer(r, *self, false, seq![], value@),
    {
        let register: Vec<u8> = Vec::new();
        assert(register@ =~= seq![]);
        self.transfer(false, register, value)
    }

    /// The SMBus quick command: `true` reads nothing, `false` writes nothing.
    pub fn smbus_write_quick(&self, value: bool) -> (r: I2cTransfer)
        ensures
            is_transfer(r, *self, value, seq![], seq![]),
    {
        let register: Vec<u8> = Vec::new();
        let data: Vec<u8> = Vec::new();
        assert(register@ =~= seq![]);
        assert(data@ =~= seq![]);
        self.transfer(value, register, data)
    }

    /// Reads one byte (see `spec_read_byte` for the answer).
    pub fn smbus_read_byte(&self) -> (r: I2cTransfer)
        ensures
            is_transfer(r, *self, true, seq![], seq![0u8]),
    {
        let register: Vec<u8> = Vec::new();
        assert(register@ =~= seq![]);
        self.transfer(true, register, vec![0u8])
    }

    /// Writes one byte.
    pub fn smbus_write_byte(&self, value: u8) -> (r: I2cTransfer)
        ensures
            is_transfer(r, *self, false, seq![], seq![value]),
    {
        let register: Vec<u8> = Vec::new();
        assert(register@ =~= seq![]);
        self.transfer(false, register, vec![value])
    }

    /// Reads one byte at the register `command`.
    pub fn smbus_read_byte_data(&self, command: u8) -> (r: I2cTransfer)
        ensures
            is_transfer(r, *self, true, seq![command], seq![0u8]),
    {
        self.transfer(true, vec![command], vec![0u8])
    }

    /// Writes one byte at the register `command`.
    pub fn smbus_write_byte_data(&self, command: u8, value: u8) -> (r: I2cTransfer)
        ensures
            is_transfer(r, *self, false, seq![command], seq![value]),
    {
        self.transfer(false, vec![command], vec![value])
    }

    /// Reads a word at the register `command` (see `spec_read_word`).
    pub fn smbus_read_word_data(&self, command: u8) -> (r: I2cTransfer)
        ensures
            is_transfer(r, *self, true, seq![command], seq![0u8, 0u8]),
    {
        self.transfer(true, vec![command], vec![0u8, 0u8])
    }

    /// Writes a word at the register `command`, low byte first.
    pub fn smbus_write_word_data(&self, command: u8, value: u16) -> (r: I2cTransfer)
        ensures
            is_transfer(r, *self, false, seq![command], seq![value as u8, (value >> 8u16) as u8]),
    {
        self.transfer(false, vec![command], vec![value as u8, (value >> 8u16) as u8])
    }

    /// Reads an SMBus block at the register `command`: its length byte and up
    /// to 32 bytes (see `smbus_block_read` for the answer).
    pub fn smbus_read_block_data(&self, command: u8) -> (r: I2cTransfer)
        ensures
            is_transfer(r, *self, true, seq![command], Seq::new(33, |i: int| 0u8)),
    {
        self.transfer(true, vec![command], zeroes(33))
    }

    /// Writes an SMBus block at the register `command`: the register bytes are
    /// the command and the block length (its low byte), the data the block.
    pub fn smbus_write_block_data(&self, command: u8, value: Vec<u8>) -> (r: I2cTransfer)
        ensures
            is_transfer(r, *self, false, seq![command, value@.len() as u8], value@),
    {
        let header = smbus_block_header(command, value.len());
        self.transfer(false, vec![header[0], header[1]], value)
    }

    /// Reads `len` bytes at the register `command`.
    pub fn i2c_read_block_data(&self, command: u8, len: usize) -> (r: I2cTransfer)
        ensures
            is_transfer(r, *self, true, seq![command], Seq::new(len as nat, |i: int| 0u8)),
    {
        self.transfer(true, vec![command], zeroes(len))
    }

    /// Writes `value` at the register `command`.
    pub fn i2c_write_block_data(&self, command: u8, value: Vec<u8>) -> (r: I2cTransfer)
        ensures
            is_transfer(r, *self, false, seq![command], value@),
    {
        self.transfer(false, vec![command], value)
    }
}

/// The byte answered by a one-byte read.
pub fn read_byte(read: NvapiResult<usize>, data: &[u8]) -> (r: Result<u8, Error>)
    requires
        data@.len() >= 1,
    ensures
        r == spec_read_byte(read, data@),
{
    match read {
        Ok(_) => Ok(data[0]),
        Err(e) => Err(Error::Nvapi(e)),
    }
}

/// The word answered by a word read.
pub fn read_word(read: NvapiResult<usize>, data: &[u8]) -> (r: Result<u16, Error>)
    requires
        data@.len() >= 2,
    ensures
        r == spec_read_word(read, data@),
{
    match read {
        Ok(_) => Ok(smbus_word([data[0], data[1]])),
        Err(e) => Err(Error::Nvapi(e)),
    }
}

/// The outcome of a write, as a bus error.
pub fn write_result(write: NvapiResult<()>) -> (r: Result<(), Error>)
    ensures
        r == (match write { Ok(()) => Ok::<(), Error>(()), Err(e) => Err(Error::Nvapi(e)) }),
{
    match write {
        Ok(()) => Ok(()),
        Err(e) => Err(Error::Nvapi(e)),
    }
}

/// The word of an SMBus word read: the first byte in both halves, as the
/// transfer reads it.
pub fn smbus_word(buf: [u8; 2]) -> (r: u16)
    ensures
        r == (buf[0] as u16) | ((buf[0] as u16) << 8u16),
{
    buf[0] as u16 | (buf[0] as u16) << 8u16
}

/// The bytes of an SMBus block write: the command and the block length
/// (its low byte).
pub fn smbus_block_header(command: u8, len: usize) -> (r: [u8; 2])
    ensures
        r[0] == command,
        r[1] == len as u8,
{
    [command, len as u8]
}

/// The smaller of two lengths.
pub open spec fn min_len(a: usize, b: usize) -> usize {
    if a <= b { a } else { b }
}

/// The number of block bytes copied by an SMBus block read: at most what was
/// read, what the block says it holds (its first byte) and what fits.
pub open spec fn spec_block_len(len: usize, buf: Seq<u8>, value_len: usize) -> usize {
    min_len(min_len(len, buf[0] as usize), value_len)
}

/// The outcome of an SMBus block read into `value`, from the outcome of the
/// read of `buf` (whose first byte is the block length): the block bytes that
/// fit are copied into `value`, and the block length is the answer.
pub fn smbus_block_read(read: NvapiResult<usize>, buf: &[u8; 33], value: &mut [u8]) -> (r: Result<usize, Error>)
    requires
        read matches Ok(len) ==> spec_block_len(len, buf@, old(value)@.len() as usize) <= 32,
    ensures
        match read {
            Err(e) => r == Err::<usize, Error>(Error::Nvapi(e)) && final(value)@ == old(value)@,
            Ok(len) => {
                let n = spec_block_len(len, buf@, old(value)@.len() as usize) as int;
                &&& r == Ok::<usize, Error>(buf[0] as usize)
                &&& final(value)@ == buf@.subrange(1, 1 + n) + old(value)@.skip(n)
            },
        },
{
    match read {
        Err(e) => Err(Error::Nvapi(e)),
        Ok(len) => {
            let a = if len <= buf[0] as usize { len } else { buf[0] as usize };
            let n = if a <= value.len() { a } else { value.len() };
            let ghost orig = value@;
            let mut i: usize = 0;
            while i < n
                invariant
                    n <= 32,
                    n <= value@.len(),
                    value@.len() == orig.len(),
                    i <= n,
                    forall|j: int| 0 <= j < i ==> #[trigger] value@[j] == buf@[1 + j],
                    forall|j: int| i <= j < value@.len() ==> #[trigger] value@[j] == orig[j],
                decreases n - i,
            {
                value[i] = buf[i + 1];
                i += 1;
            }
            assert(value@ =~= buf@.subrange(1, 1 + n as int) + orig.skip(n as int));
            Ok(buf[0] as usize)
        },
    }
}

} // verus!
