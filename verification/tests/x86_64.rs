//! Power control on the x86-64 target.

use kernel::x86_64::PowerAction;
use kernel::x86_64::shutdown;

#[test]
fn x86_failed_shutdown_halts_forever() {
    let mut seq = shutdown();
    assert_eq!(seq.next_action(), PowerAction::PortWrite { port: 0xf4, value: 0 });
    for _ in 0..16 {
        assert_eq!(seq.next_action(), PowerAction::Halt);
    }
}
