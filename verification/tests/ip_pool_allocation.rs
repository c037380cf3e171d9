use benchscale::backend::ip_pool::{IpPool, Ipv4Addr};
use std::collections::HashSet;

fn small_pool() -> IpPool {
    IpPool::new(
        "192.168.122.0/24".to_string(),
        Ipv4Addr::new(192, 168, 122, 10),
        Ipv4Addr::new(192, 168, 122, 12),
    )
    .unwrap()
}

#[test]
fn test_allocate_unique_ips() {
    let mut pool = IpPool::default_libvirt();
    let ip1 = pool.allocate().unwrap();
    let ip2 = pool.allocate().unwrap();
    let ip3 = pool.allocate().unwrap();
    assert_ne!(ip1, ip2);
    assert_ne!(ip2, ip3);
    assert_ne!(ip1, ip3);
    assert!(ip1.to_bits() >= Ipv4Addr::new(192, 168, 122, 10).to_bits());
    assert!(ip1.to_bits() <= Ipv4Addr::new(192, 168, 122, 250).to_bits());
}

#[test]
fn test_release_and_reallocate() {
    let mut pool = IpPool::default_libvirt();
    let ip1 = pool.allocate().unwrap();
    let ip2 = pool.allocate().unwrap();
    pool.release(ip1);
    let ip3 = pool.allocate().unwrap();
    assert_ne!(ip3, ip2);
}

#[test]
fn test_allocate_specific() {
    let mut pool = IpPool::default_libvirt();
    let target_ip = Ipv4Addr::new(192, 168, 122, 100);
    let allocated = pool.allocate_specific(target_ip).unwrap();
    assert_eq!(allocated, target_ip);
    assert!(pool.is_allocated(target_ip));
}

#[test]
fn test_allocate_specific_already_allocated() {
    let mut pool = IpPool::default_libvirt();
    let ip = Ipv4Addr::new(192, 168, 122, 100);
    pool.allocate_specific(ip).unwrap();
    assert!(pool.allocate_specific(ip).is_err());
}

#[test]
fn allocate_specific_outside_range_is_refused() {
    let mut pool = IpPool::default_libvirt();
    let e = pool.allocate_specific(Ipv4Addr::new(192, 168, 122, 5)).unwrap_err();
    assert!(e.to_string().contains("outside"), "{}", e.to_string());
}

#[test]
fn ten_allocations_are_distinct() {
    let mut pool = IpPool::default_libvirt();
    let ips: Vec<Ipv4Addr> = (0..10).map(|_| pool.allocate().unwrap()).collect();
    let unique: HashSet<_> = ips.iter().collect();
    assert_eq!(unique.len(), 10);
}

#[test]
fn test_capacity_and_counts() {
    let mut pool = IpPool::default_libvirt();
    let capacity = pool.capacity();
    assert_eq!(capacity, 241);

    let ip1 = pool.allocate().unwrap();
    assert_eq!(pool.allocated_count(), 1);
    assert_eq!(pool.available_count(), capacity - 1);

    let _ip2 = pool.allocate().unwrap();
    assert_eq!(pool.allocated_count(), 2);
    assert_eq!(pool.available_count(), capacity - 2);

    pool.release(ip1);
    assert_eq!(pool.allocated_count(), 1);
    assert_eq!(pool.available_count(), capacity - 1);
}

#[test]
fn test_pool_exhaustion() {
    let mut pool = small_pool();
    let _ip1 = pool.allocate().unwrap();
    let ip2 = pool.allocate().unwrap();
    let _ip3 = pool.allocate().unwrap();
    assert!(pool.allocate().is_err());
    pool.release(ip2);
    assert!(pool.allocate().is_ok());
}

#[test]
fn test_invalid_cidr_format() {
    let result = IpPool::new(
        "not-a-valid-cidr".to_string(),
        Ipv4Addr::new(192, 168, 122, 10),
        Ipv4Addr::new(192, 168, 122, 50),
    );
    assert!(result.is_err());
    if let Err(e) = result {
        assert!(e.to_string().contains("CIDR") || e.to_string().contains("network"));
    }
}

#[test]
fn test_range_start_after_end() {
    let result = IpPool::new(
        "192.168.122.0/24".to_string(),
        Ipv4Addr::new(192, 168, 122, 100),
        Ipv4Addr::new(192, 168, 122, 50),
    );
    assert!(result.is_err());
    if let Err(e) = result {
        assert!(e.to_string().contains("range") || e.to_string().contains("start"));
    }
}

#[test]
fn test_range_outside_network() {
    let result = IpPool::new(
        "192.168.122.0/24".to_string(),
        Ipv4Addr::new(192, 168, 123, 10),
        Ipv4Addr::new(192, 168, 123, 50),
    );
    assert!(result.is_err());
    if let Err(e) = result {
        assert!(e.to_string().contains("network") || e.to_string().contains("range"));
    }
}

#[test]
fn test_release_unallocated_ip() {
    let mut pool = IpPool::default_libvirt();
    let ip = Ipv4Addr::new(192, 168, 122, 100);
    pool.release(ip);
    assert!(!pool.is_allocated(ip));
}

#[test]
fn test_double_release() {
    let mut pool = IpPool::default_libvirt();
    let ip = pool.allocate().unwrap();
    pool.release(ip);
    pool.release(ip);
    assert!(!pool.is_allocated(ip));
}

#[test]
fn test_allocate_after_release() {
    let mut pool = small_pool();
    let _ip1 = pool.allocate().unwrap();
    let ip2 = pool.allocate().unwrap();
    let _ip3 = pool.allocate().unwrap();
    assert!(pool.allocate().is_err());
    pool.release(ip2);
    let ip4 = pool.allocate().unwrap();
    assert_eq!(ip4, ip2, "Should reuse the released IP");
}

#[test]
fn pool_from_range_text_and_accessors() {
    let pool = IpPool::from_range("10.0.0.5", "10.0.0.9").unwrap();
    assert_eq!(pool.capacity(), 5);
    assert_eq!(pool.range_start(), Ipv4Addr::new(10, 0, 0, 5));
    assert_eq!(pool.range_end(), Ipv4Addr::new(10, 0, 0, 9));
    assert_eq!(pool.network(), "10.0.0.0/24");
    assert!(IpPool::from_range("10.0.0.x", "10.0.0.9").is_err());
}

#[test]
fn address_text_round_trip() {
    let a = Ipv4Addr::new(192, 168, 1, 7);
    assert_eq!(a.to_string(), "192.168.1.7");
    assert_eq!(Ipv4Addr::parse("192.168.1.7"), Some(a));
    assert_eq!(a.octets(), [192, 168, 1, 7]);
    assert_eq!(Ipv4Addr::parse("256.1.1.1"), None);
}

#[test]
fn pool_ending_at_the_last_address_serves_it_and_wraps() {
    let mut pool = IpPool::new(
        "255.255.255.0/24".to_string(),
        Ipv4Addr::new(255, 255, 255, 254),
        Ipv4Addr::new(255, 255, 255, 255),
    )
    .unwrap();
    assert_eq!(pool.allocate().unwrap(), Ipv4Addr::new(255, 255, 255, 254));
    assert_eq!(pool.allocate().unwrap(), Ipv4Addr::new(255, 255, 255, 255));
    assert!(pool.allocate().is_err());
    pool.release(Ipv4Addr::new(255, 255, 255, 254));
    assert_eq!(pool.allocate().unwrap(), Ipv4Addr::new(255, 255, 255, 254));
}

#[test]
fn an_unparsable_network_names_itself_in_the_error() {
    let e = match IpPool::new("not-a-cidr".to_string(), Ipv4Addr::new(10, 0, 0, 1), Ipv4Addr::new(10, 0, 0, 2)) {
        Ok(_) => panic!("an unparsable network was accepted"),
        Err(e) => e,
    };
    assert!(e.to_string().contains("invalid address: not-a-cidr"), "{}", e.to_string());
}
