use fleet_management_backend::repositories::vehicle_status_repo::VehicleStatusCacheRepository;

#[test]
fn the_key_is_the_prefix_and_the_hyphenated_identifier() {
    assert_eq!(
        VehicleStatusCacheRepository::key(0xa1a2a3a4_b1b2_c1c2_d1d2_d3d4d5d6d7d8),
        "vehicle_status:a1a2a3a4-b1b2-c1c2-d1d2-d3d4d5d6d7d8"
    );
    assert_eq!(VehicleStatusCacheRepository::key(0), "vehicle_status:00000000-0000-0000-0000-000000000000");
    assert_eq!(
        VehicleStatusCacheRepository::key(u128::MAX),
        "vehicle_status:ffffffff-ffff-ffff-ffff-ffffffffffff"
    );
    assert_eq!(VehicleStatusCacheRepository::key(0x1f), "vehicle_status:00000000-0000-0000-0000-00000000001f");
}

#[test]
fn the_repository_keeps_the_client_it_was_given() {
    let client = redis::Client::open("redis://127.0.0.1:6390/3").expect("Failed to create Redis client");
    let repo = VehicleStatusCacheRepository::new(client);
    let info = repo.client().get_connection_info();
    assert_eq!(info.redis.db, 3);
    assert_eq!(info.addr.to_string(), "127.0.0.1:6390");
}
