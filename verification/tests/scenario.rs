use batch_kernel::batch::{
    run_current_app, run_next_app, AppManager, KernelStack, Launch, UserStack, APP_BASE_ADDRESS,
    APP_SIZE_LIMIT,
};
use batch_kernel::console::print;
use batch_kernel::sbi::{shutdown, SbiCall};
use batch_kernel::trap::{syscall_return, trap_handler, Fault, TrapAction};

const SYSCALL_WRITE: usize = 64;
const SYSCALL_EXIT: usize = 93;

/// What one run of the batch system did, as seen from outside.
#[derive(Debug, PartialEq, Eq)]
enum Step {
    Launched(usize, Vec<u8>),
    Resumed(usize, usize),
    Exited(usize),
    Killed(usize, Fault),
    Firmware(SbiCall),
}

/// Runs two applications on the table and images given: the first writes,
/// then exits; the second stores where it may not.
fn run(table: &[usize], images: &[u8]) -> Vec<Step> {
    let mut steps = Vec::new();
    let mut manager = AppManager::new(table, images).unwrap();
    let mut kernel = KernelStack::new(0x8020_0000).unwrap();
    let user = UserStack::new(0x8020_2000).unwrap();
    let mut region = vec![0_u8; APP_SIZE_LIMIT];

    let launch = run_current_app(&manager, &mut kernel, &user, &mut region, 0x100);
    assert!(matches!(launch, Launch::Restore { app_id: 0, .. }));
    steps.push(Step::Launched(0, region[..4].to_vec()));

    // Application 0 writes one character: the call is serviced and resumed.
    {
        let cx = kernel.context_mut();
        cx.sepc = APP_BASE_ADDRESS + 0x20;
        cx.x[17] = SYSCALL_WRITE;
        cx.x[10] = 1;
        cx.x[11] = 0x41;
        cx.x[12] = 1;
    }
    match trap_handler(&mut manager, &mut kernel, &user, &mut region, 8, 0, 0x100) {
        TrapAction::Syscall { id: SYSCALL_WRITE, args } => {
            for call in print("A") {
                steps.push(Step::Firmware(call));
            }
            syscall_return(&mut kernel, args[2] as isize);
            steps.push(Step::Resumed(kernel.current_context().sepc, kernel.current_context().x[10]));
        }
        other => panic!("{:?}", other),
    }

    // Application 0 exits: the sequencer moves on to application 1.
    {
        let cx = kernel.context_mut();
        cx.sepc = APP_BASE_ADDRESS + 0x40;
        cx.x[17] = SYSCALL_EXIT;
        cx.x[10] = 0;
    }
    match trap_handler(&mut manager, &mut kernel, &user, &mut region, 8, 0, 0x100) {
        TrapAction::Syscall { id: SYSCALL_EXIT, args } => {
            steps.push(Step::Exited(args[0]));
            assert!(manager.get_current_app() < manager.num_app());
            let launch = run_next_app(&mut manager, &mut kernel, &user, &mut region, 0x100);
            assert!(matches!(launch, Launch::Restore { app_id: 1, .. }));
            steps.push(Step::Launched(manager.get_current_app(), region[..4].to_vec()));
        }
        other => panic!("{:?}", other),
    }
    assert_eq!(kernel.current_context().sepc, APP_BASE_ADDRESS);

    // Application 1 faults: it is killed, nothing is left, the machine halts.
    match trap_handler(&mut manager, &mut kernel, &user, &mut region, 15, 0, 0x100) {
        TrapAction::Killed { fault, app_id, next: Launch::Shutdown } => {
            steps.push(Step::Killed(app_id, fault));
            steps.push(Step::Firmware(shutdown()));
        }
        other => panic!("{:?}", other),
    }
    assert_eq!(manager.get_current_app(), 2);
    assert_eq!(manager.get_current_app(), manager.num_app());
    steps
}

#[test]
fn two_applications_run_to_the_halt() {
    let images = [0xa1, 0xa2, 0xa3, 0xb1, 0xb2];
    let steps = run(&[2, 0, 3, 5], &images);
    assert_eq!(
        steps,
        vec![
            Step::Launched(0, vec![0xa1, 0xa2, 0xa3, 0]),
            Step::Firmware(SbiCall { which: 1, arg0: 0x41, arg1: 0, arg2: 0 }),
            Step::Resumed(APP_BASE_ADDRESS + 0x24, 1),
            Step::Exited(0),
            Step::Launched(1, vec![0xb1, 0xb2, 0, 0]),
            Step::Killed(1, Fault::PageFault),
            Step::Firmware(SbiCall { which: 8, arg0: 0, arg1: 0, arg2: 0 }),
        ]
    );
}

#[test]
fn the_same_table_and_images_give_the_same_run() {
    let images = [0xa1, 0xa2, 0xa3, 0xb1, 0xb2];
    assert_eq!(run(&[2, 0, 3, 5], &images), run(&[2, 0, 3, 5], &images));
}
