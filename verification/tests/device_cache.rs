use mistralrs_gateway::device::DeviceCache;

#[test]
fn probe_runs_once_and_every_caller_sees_the_same_handle() {
    let mut cache = DeviceCache::new();
    assert_eq!(cache.probes(), 0);
    let first = cache.get_device();
    let second = cache.get_device();
    let h1 = first.expect("probing must succeed on this backend");
    let h2 = second.expect("a cached handle must be returned");
    assert_eq!(h1, h2);
    assert_eq!(cache.probes(), 1);
}

#[test]
fn fresh_cache_holds_no_handle() {
    let cache = DeviceCache::new();
    assert_eq!(cache.probes(), 0);
}
