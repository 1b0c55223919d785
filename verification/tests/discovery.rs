use bitfold_pmtu::command::ProtocolCommand;
use bitfold_pmtu::config::Config;
use bitfold_pmtu::discovery::PmtuDiscovery;

#[test]
fn test_pmtu_discovery_probe_reply() {
    let mut config = Config::default();
    config.use_pmtu_discovery = true;
    config.pmtu_min = 576;
    config.pmtu_max = 1400;
    config.pmtu_interval_ms = 100; // Short interval for testing

    let start_time: u64 = 0;
    let mut pmtu = PmtuDiscovery::new(&config, start_time);

    // Initially, should use config fragment_size
    assert_eq!(pmtu.current_fragment_size(), config.fragment_size);

    // Advance time past the probe interval to trigger first probe
    let time = start_time + 150;
    let rto: u64 = 200;
    let probe_cmd = pmtu.handle_pmtu(time, rto);

    // Should have generated a probe command
    assert!(probe_cmd.is_some());
    assert!(pmtu.has_outstanding_probe());

    // Simulate successful reply
    if let Some(outstanding) = pmtu.outstanding_probe() {
        let (size, token, _) = outstanding;
        let success = pmtu.process_reply(size, token, time);
        assert!(success);
        // After successful reply, low should be updated
        assert_eq!(pmtu.current_fragment_size(), size);
        assert!(!pmtu.has_outstanding_probe());
    }
}

#[test]
fn test_pmtu_discovery_timeout() {
    let mut config = Config::default();
    config.use_pmtu_discovery = true;
    config.pmtu_min = 576;
    config.pmtu_max = 1400;
    config.pmtu_interval_ms = 100;

    let start_time: u64 = 0;
    let mut pmtu = PmtuDiscovery::new(&config, start_time);

    // Advance time to trigger initial probe
    let mut time = start_time + 150;
    let rto: u64 = 200;
    let probe_cmd = pmtu.handle_pmtu(time, rto);
    assert!(probe_cmd.is_some());

    let high_before = pmtu.high_bound();

    // Advance time beyond RTO to trigger timeout
    time = time + 2000;

    // Handle PMTU again - should timeout the outstanding probe
    let result = pmtu.handle_pmtu(time, rto);

    // After timeout, outstanding should be cleared and high bound reduced
    assert!(!pmtu.has_outstanding_probe());
    assert!(pmtu.high_bound() < high_before);
    assert!(result.is_none()); // No new probe until interval passes
}

#[test]
fn test_pmtu_discovery_enabled_by_default() {
    let config = Config::default();
    assert!(config.use_pmtu_discovery);

    let creation_time: u64 = 0;
    let mut pmtu = PmtuDiscovery::new(&config, creation_time);

    // Wait for the PMTU interval to elapse before checking for probes
    let probe_time = creation_time + config.pmtu_interval_ms + 100;

    // Should generate probes when enabled after interval
    let rto: u64 = 200;
    let probe = pmtu.handle_pmtu(probe_time, rto);
    assert!(probe.is_some());
}

#[test]
fn test_pmtu_discovery_can_be_disabled() {
    let mut config = Config::default();
    config.use_pmtu_discovery = false;
    assert!(!config.use_pmtu_discovery);

    let mut pmtu = PmtuDiscovery::new(&config, 0);
    let time: u64 = 0;
    let rto: u64 = 200;

    // Should not generate any probes when disabled
    let probe = pmtu.handle_pmtu(time, rto);
    assert!(probe.is_none());
}

#[test]
fn test_pmtu_discovery_convergence() {
    let mut config = Config::default();
    config.use_pmtu_discovery = true;
    config.pmtu_min = 1200;
    config.pmtu_max = 1232; // Within convergence threshold
    config.pmtu_converge_threshold = 64;

    let mut pmtu = PmtuDiscovery::new(&config, 0);
    let time: u64 = 0;
    let rto: u64 = 200;

    // When high - low <= threshold, should converge to low
    let probe = pmtu.handle_pmtu(time, rto);

    // Should converge and not generate probe
    assert!(probe.is_none());
    // Should use low bound as fragment size
    assert_eq!(pmtu.current_fragment_size(), config.pmtu_min);
}

#[test]
fn test_pmtu_invalid_reply_token() {
    let mut config = Config::default();
    config.use_pmtu_discovery = true;

    let start_time: u64 = 0;
    let mut pmtu = PmtuDiscovery::new(&config, start_time);

    // Generate a probe
    let time = start_time + config.pmtu_interval_ms + 100;
    let rto: u64 = 200;
    pmtu.handle_pmtu(time, rto);

    // Send reply with wrong token
    let wrong_token = 99999;
    let success = pmtu.process_reply(1000, wrong_token, time);

    // Should reject invalid token
    assert!(!success);
    // Probe should still be outstanding
    assert!(pmtu.has_outstanding_probe());
}

#[test]
fn test_pmtu_create_reply() {
    let size = 1200;
    let token = 12345;
    let reply = PmtuDiscovery::create_reply(size, token);

    match reply {
        ProtocolCommand::PMTUReply { size: s, token: t } => {
            assert_eq!(s, size);
            assert_eq!(t, token);
        }
        _ => panic!("Expected PMTUReply command"),
    }
}
