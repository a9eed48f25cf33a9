use chip8::error::Chip8Error;
use chip8::memory::{Chip8MemoryMap, MemoryMap, CHIP8_INTERPRETER_STUB};

#[test]
fn test_memory_zeroed() -> Result<(), Chip8Error> {
    let m = Chip8MemoryMap::new()?;
    // NB. memory is zeroed from 0x200 because before that we bake in the
    //     interpreter details
    assert_eq!(m.bytes[0x200..], [0; 0xe00]);
    Ok(())
}

#[test]
fn test_write_any_data_ok() -> Result<(), Chip8Error> {
    let mut dst = Chip8MemoryMap::new()?;
    let src: &[u8] = &[0, 1, 2, 3, 4, 5, 6, 7];
    dst.write_any(src, 8)?;
    assert_eq!(
        dst.bytes[..16],
        [0, 0, 0, 0, 0, 0, 0, 0, 0, 1, 2, 3, 4, 5, 6, 7]
    );
    Ok(())
}

#[test]
fn test_write_slice_ok() {
    let mut dst = Chip8MemoryMap::new().unwrap();
    let src: &[u8] = &[0, 1, 2, 3, 4, 5, 6, 7];
    dst.write(&src, 8, 8).unwrap();
    assert_eq!(
        dst.bytes[..16],
        [0, 0, 0, 0, 0, 0, 0, 0, 0, 1, 2, 3, 4, 5, 6, 7]
    );
}

#[test]
fn test_read_ro() {
    let m = Chip8MemoryMap::new().unwrap();
    let s = m.get_ro_slice(0, 8).unwrap();
    assert_eq!(s, &[0, 0, 0, 0, 0, 0, 0, 0]);
}

#[test]
fn test_read_word() {
    let mut m = Chip8MemoryMap::new().unwrap();
    let src: &[u8] = &[0, 1, 2, 3, 4, 5, 6, 7];
    m.write(src, 0, 8).unwrap();
    assert_eq!(m.get_word(0x4), Ok(0x0405));
}

#[test]
fn memory_test_program_load_ok() -> Result<(), Chip8Error> {
    let mut dst = Chip8MemoryMap::new()?;
    let prog: &[u8] = &[0x00, 0xe0]; // clear screen
    dst.load_program(prog)?;
    assert_eq!(dst.get_ro_slice(0x200, 2)?, &[0x00, 0xe0]);
    Ok(())
}

#[test]
fn test_mem_layout() {
    let m = Chip8MemoryMap::new().unwrap();
    assert_eq!(m.stack_addr, 0x0ece);
    assert_eq!(m.work_addr, 0x0ed0);
    assert_eq!(m.var_addr, 0x0ef0);
    assert_eq!(m.display_addr, 0x0f00);
}

#[test]
fn memory_is_4k() {
    let m = Chip8MemoryMap::new().unwrap();
    assert_eq!(m.bytes.len(), 4096);
    assert_eq!(m.program_addr, 0x0200);
}

#[test]
fn interpreter_stub_sits_in_the_second_page() {
    let m = Chip8MemoryMap::new().unwrap();
    assert_eq!(m.get_ro_slice(0x100, 0x100).unwrap(), &CHIP8_INTERPRETER_STUB);
    assert_eq!(m.get_ro_slice(0, 0x100).unwrap(), &[0u8; 0x100]);
    assert_eq!(m.bytes[0x108], 0x56);
}

#[test]
fn write_past_the_end_is_refused() {
    let mut dst = Chip8MemoryMap::new().unwrap();
    let before = dst.bytes.clone();
    let src: &[u8] = &[0xaa; 8];
    assert_eq!(dst.write_any(src, 4089), Err(Chip8Error::OutOfBounds));
    assert_eq!(dst.bytes, before);
    assert_eq!(dst.write_any(src, 4088), Ok(()));
    assert_eq!(dst.bytes[4088..], [0xaa; 8]);
}

#[test]
fn write_copies_no_more_than_the_data() {
    let mut dst = Chip8MemoryMap::new().unwrap();
    dst.write(&[9, 9, 9, 9], 0x300, 4).unwrap();
    // two bytes of data for a window of four bytes
    dst.write(&[1, 2], 0x300, 4).unwrap();
    assert_eq!(dst.bytes[0x300..0x304], [1, 2, 9, 9]);
    // four bytes of data for a window of two bytes
    dst.write(&[5, 6, 7, 8], 0x301, 2).unwrap();
    assert_eq!(dst.bytes[0x300..0x304], [1, 5, 6, 9]);
    // the whole window has to lie inside memory
    assert_eq!(dst.write(&[1], 4095, 2), Err(Chip8Error::OutOfBounds));
}

#[test]
fn views_are_bounds_checked() {
    let mut m = Chip8MemoryMap::new().unwrap();
    assert!(m.get_ro_slice(4095, 1).is_ok());
    assert_eq!(m.get_ro_slice(4095, 2), Err(Chip8Error::OutOfBounds));
    assert_eq!(m.get_ro_slice(4096, 0).map(|s| s.len()), Ok(0));
    assert_eq!(m.get_ro_slice(0x200, 0xe01), Err(Chip8Error::OutOfBounds));
    assert!(m.get_rw_slice(4097, 0).is_err());
    assert_eq!(m.get_word(4095), Err(Chip8Error::OutOfBounds));
    assert_eq!(m.get_word(4094), Ok(0));
}

#[test]
fn writable_view_changes_only_its_window() {
    let mut m = Chip8MemoryMap::new().unwrap();
    let before = m.bytes.clone();
    {
        let window = m.get_rw_slice(0x400, 3).unwrap();
        assert_eq!(window, &[0, 0, 0]);
        window[0] = 1;
        window[2] = 3;
    }
    assert_eq!(m.bytes[0x400..0x403], [1, 0, 3]);
    assert_eq!(m.bytes[..0x400], before[..0x400]);
    assert_eq!(m.bytes[0x403..], before[0x403..]);
}

#[test]
fn program_that_is_too_long_is_refused() {
    let mut m = Chip8MemoryMap::new().unwrap();
    let fits = vec![0x11u8; 0xe00];
    let too_long = vec![0x22u8; 0xe01];
    assert_eq!(m.load_program(&too_long), Err(Chip8Error::OutOfBounds));
    assert_eq!(m.bytes[0x200..], [0; 0xe00]);
    assert_eq!(m.load_program(&fits), Ok(()));
    assert_eq!(m.bytes[0x200..], [0x11; 0xe00]);
}
