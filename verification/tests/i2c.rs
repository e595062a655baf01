use nvapi::i2c::{I2c, read_byte, read_word, write_result, smbus_block_read};
use nvapi::gpu::{PhysicalGpu, NvPhysicalGpuHandle};
use nvapi::status::{Status, NvAPI_Status};
use nvapi::error::{Api, NvapiError, Error};

fn bus() -> I2c<PhysicalGpu> {
    let mut b = I2c::new(PhysicalGpu::with_handle(NvPhysicalGpuHandle(7)), 1);
    b.set_address(0x50);
    b
}

#[test]
fn smbus_transfers_carry_register_and_data() {
    let b = bus();
    let t = b.smbus_write_word_data(0x10, 0xbeef);
    assert!(!t.read);
    assert_eq!(t.register, vec![0x10]);
    assert_eq!(t.data, vec![0xef, 0xbe]);
    assert_eq!(t.request.regAddrSize, 1);
    assert_eq!(t.request.cbSize, 2);
    assert_eq!(t.request.i2cDevAddress, 0xa0);

    let r = b.smbus_read_block_data(3);
    assert!(r.read);
    assert_eq!(r.data.len(), 33);
    assert_eq!(r.request.cbSize, 33);

    let w = b.smbus_write_block_data(4, vec![1, 2, 3]);
    assert_eq!(w.register, vec![4, 3]);
    assert_eq!(w.data, vec![1, 2, 3]);

    let q = b.smbus_write_quick(true);
    assert!(q.read);
    assert!(q.data.is_empty() && q.register.is_empty());
    assert!(!b.smbus_write_quick(false).read);

    assert_eq!(b.smbus_read_byte().data, vec![0]);
    assert_eq!(b.smbus_read_byte_data(9).register, vec![9]);
    assert_eq!(b.smbus_write_byte(5).data, vec![5]);
    assert_eq!(b.smbus_write_byte_data(9, 5).register, vec![9]);
    assert_eq!(b.smbus_read_word_data(9).data, vec![0, 0]);
    assert_eq!(b.i2c_read(4).data, vec![0; 4]);
    assert_eq!(b.i2c_write(vec![8]).request.regAddrSize, 0);
    assert_eq!(b.i2c_read_block_data(2, 5).request.cbSize, 5);
    assert_eq!(b.i2c_write_block_data(2, vec![1, 1]).register, vec![2]);
}

#[test]
fn smbus_results() {
    let b = bus();
    let t = b.smbus_read_word_data(1);
    let read = b.nvapi_read(Ok(t.request));
    assert_eq!(read, Ok(2));
    assert_eq!(read_word(read, &[0x12, 0x34]), Ok(0x1212));
    assert_eq!(read_byte(Ok(1), &[0x7f]), Ok(0x7f));
    let e = NvapiError::new(NvAPI_Status::new(Status::PortidNotFound), Api::NvAPI_I2CRead);
    assert_eq!(read_byte(Err(e), &[0]), Err(Error::Nvapi(e)));
    assert_eq!(write_result(b.nvapi_write(Ok(()))), Ok(()));
    let mut value = [0u8; 4];
    let mut buf = [0u8; 33];
    buf[0] = 2;
    buf[1] = 0xaa;
    buf[2] = 0xbb;
    buf[3] = 0xcc;
    assert_eq!(smbus_block_read(Ok(33), &buf, &mut value), Ok(2));
    assert_eq!(value, [0xaa, 0xbb, 0, 0]);
}
