//! End-to-end scenarios over the verified core, with the OS transfers
//! simulated: the byte images handed across the boundary are exactly those an
//! attached front end would pass through.

use memhack::chain::{ChainAction, ChainWalk};
use memhack::codec::ToBytes;
use memhack::errors::MemHackError;
use memhack::handle::HookHandle;
use memhack::memory::typed_read_outcome;
use memhack::modules::{find_module_base, ModuleEntry};
use memhack::process::{find_process_id, ProcessEntry};

fn padded(name: &[u8], width: usize) -> Vec<u8> {
    let mut v = name.to_vec();
    v.push(0);
    while v.len() < width {
        v.push(0);
    }
    v
}

#[test]
fn attach_resolve_and_read_an_integer() {
    // a snapshot holding the target process under PID 1234
    let entries = vec![
        ProcessEntry { pid: 4, exe_file: padded(b"init.exe", 260) },
        ProcessEntry { pid: 1234, exe_file: padded(b"app.exe", 260) },
    ];
    let pid = find_process_id(&entries, &b"app.exe".to_vec()).unwrap();
    assert_eq!(pid, 1234);

    // the OS granted a handle for that PID
    let mut handle = HookHandle::from_raw(0x1234).unwrap();

    // the module list of the attached process
    let modules = vec![
        ModuleEntry { base: 0x0040_0000, path: b"C:\\Program Files\\app\\app.exe".to_vec() },
    ];
    let base = find_module_base(&modules, &b"app.exe".to_vec()).unwrap();
    assert_eq!(base, 0x0040_0000);

    // walk (base, [0x10, 0x20, 0x4]): exactly two reads, then the final address
    let mut walk = ChainWalk::new(base, vec![0x10, 0x20, 0x4]);
    let mut reads_performed = 0;
    let final_address = loop {
        assert!(walk.step_fits());
        match walk.next_action() {
            ChainAction::Finish { address } => break address,
            ChainAction::ReadAt { address } => {
                // the simulated target holds a pointer at each hop
                let pointed_to = address + 0x1_0000;
                reads_performed += 1;
                walk.feed(pointed_to);
            }
        }
    };
    assert_eq!(reads_performed, 2);
    assert_eq!(walk.reads, 2);
    // hop 1: read at 0x400010 -> 0x410010; hop 2: read at 0x410030 -> 0x420030;
    // last offset added without a read
    assert_eq!(final_address, 0x0042_0034);

    // a 4-byte integer is read at the final address
    let image = vec![0x2a, 0, 0, 0];
    let value = typed_read_outcome::<u32>(final_address, image, true).unwrap();
    assert_eq!(value, 42);

    // and a failed transfer there reports that address and length 4
    match typed_read_outcome::<u32>(final_address, vec![0; 4], false) {
        Err(MemHackError::MemoryReadError { address, bytes_to_read }) => {
            assert_eq!(address, final_address);
            assert_eq!(bytes_to_read, 4);
        }
        other => panic!("expected MemoryReadError, got {:?}", other),
    }

    handle.close().unwrap();
}

#[test]
fn float_written_then_read_back_survives() {
    // an 8-byte floating-point value crosses the boundary as its bit image
    let written: f64 = -12345.6789;
    let image = written.to_bits().to_bytes();
    assert_eq!(image, written.to_le_bytes().to_vec());

    // the simulated target memory now holds exactly those bytes; read them back
    let bits = typed_read_outcome::<u64>(0x0042_0034, image, true).unwrap();
    let read_back = f64::from_bits(bits);
    assert_eq!(read_back, written);
}
