use octmm::runner::{ModuleRef, Phase, Runner, Step};

#[test]
fn stop_on_first_iteration_ends_each_module_once() {
    let mut runner = Runner::new(1, 1);
    assert_eq!(runner.phase(), Phase::Uninitialized);
    let init = runner.start();
    assert_eq!(
        init,
        vec![
            Step::Init(ModuleRef::Polling(0)),
            Step::Init(ModuleRef::Command(0)),
            Step::Bind(0),
            Step::PostInit(0),
            Step::RunProgram,
        ]
    );
    runner.started();
    assert_eq!(runner.phase(), Phase::Running);
    assert_eq!(
        runner.iteration(),
        vec![Step::Update(ModuleRef::Command(0)), Step::Bind(0), Step::Update(ModuleRef::Polling(0))]
    );
    let end = runner.checked(true);
    assert_eq!(runner.phase(), Phase::Ending);
    assert_eq!(end, vec![Step::End(ModuleRef::Command(0)), Step::End(ModuleRef::Polling(0))]);
    runner.ended();
    assert_eq!(runner.phase(), Phase::Terminated);
}

#[test]
fn no_stop_flag_keeps_running() {
    let mut runner = Runner::new(2, 3);
    runner.start();
    runner.started();
    for _ in 0..5 {
        assert_eq!(runner.iteration().len(), 2 + 2 + 3);
        assert!(runner.checked(false).is_empty());
        assert_eq!(runner.phase(), Phase::Running);
    }
    let end = runner.checked(true);
    assert_eq!(
        end,
        vec![
            Step::End(ModuleRef::Command(0)),
            Step::End(ModuleRef::Command(1)),
            Step::End(ModuleRef::Polling(0)),
            Step::End(ModuleRef::Polling(1)),
            Step::End(ModuleRef::Polling(2)),
        ]
    );
}
