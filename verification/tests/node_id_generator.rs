use plumcast::node::{
    GenerateLocalNodeId, SerialLocalNodeIdGenerator, UnixtimeLocalNodeIdGenerator,
};

#[test]
fn serial_id_generator_works() {
    let mut generator = SerialLocalNodeIdGenerator::new();
    assert_eq!(generator.generate_local_node_id().value(), 0);
    assert_eq!(generator.generate_local_node_id().value(), 1);
    assert_eq!(generator.generate_local_node_id().value(), 2);

    let mut generator = SerialLocalNodeIdGenerator::with_offset(std::u64::MAX);
    assert_eq!(generator.generate_local_node_id().value(), std::u64::MAX);
    assert_eq!(generator.generate_local_node_id().value(), 0);
    assert_eq!(generator.generate_local_node_id().value(), 1);
}

#[test]
fn unixtime_id_generator_works() {
    let mut generator = UnixtimeLocalNodeIdGenerator::new();
    let id0 = generator.generate_local_node_id();
    let id1 = generator.generate_local_node_id();
    assert_ne!(id0, id1);
}
