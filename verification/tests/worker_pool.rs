use anubis_core::worker_pool::WorkerPoolConfig;

#[test]
fn config_defaults() {
    let cfg = WorkerPoolConfig::default();
    assert_eq!(cfg.max_synth, 2);
    assert_eq!(cfg.max_convert, 2);
}
