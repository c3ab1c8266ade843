use fundsp::audiounit::AudioUnit;
use fundsp::hacker32::shared;
use octmm::graph::DspModule;
use octmm::network::{Network, NodeType};

#[test]
fn mod_test_shared_management() {
    let mut dsp = DspModule::new();
    let test_name: String = "test shared".to_string();

    assert_eq!(dsp.shared_exists(&test_name), false);
    dsp.shared_set(&test_name, &shared(2.5));
    assert_eq!(dsp.shared_exists(&test_name), true);

    assert_eq!(dsp.shared_get(&test_name).unwrap().value(), 2.5);
    dsp.shared_set(&test_name, &shared(0.0));
    assert_eq!(dsp.shared_get(&test_name).unwrap().value(), 0.0);
}

#[test]
fn mod_test_net_management() {
    let mut dsp = DspModule::new();

    let default_length: usize = NodeType::get_defaults().len();
    assert_eq!(default_length, NodeType::get_defaults_size());

    assert_eq!(dsp.net_vector_length(), default_length);

    assert!(!dsp.net_exists(default_length));
    let id1 = dsp.net_from(&Network::new(0, 3));
    assert_eq!(id1, default_length);
    assert!(dsp.net_exists(default_length));

    assert!(!dsp.net_exists(default_length + 1));
    let id2 = dsp.net_from(&Network::new(0, 4));
    assert_eq!(id2, default_length + 1);
    assert!(dsp.net_exists(default_length + 1));

    assert!(dsp.get_net(default_length + 200).is_none());
    assert!(dsp.get_net(default_length + 1).is_some());

    assert!(dsp.net_replace(default_length + 2, &Network::new(5, 5)).is_none());
    assert_eq!(dsp.net_replace(default_length, &Network::new(5, 5)), Some(default_length));

    assert_eq!(dsp.net_constant(&shared(12.3)), default_length + 2);
}

#[test]
fn mod_test_net_functions() {
    let mut dsp = DspModule::new();

    let hammond = NodeType::Sine.as_net_id().expect("No ID exists");
    let organ = NodeType::Organ.as_net_id().expect("No ID exists");
    let saw = NodeType::Saw.as_net_id().expect("No ID exists");
    let sine = NodeType::Sine.as_net_id().expect("No ID exists");
    let softsaw = NodeType::SoftSaw.as_net_id().expect("No ID exists");
    let square = NodeType::Square.as_net_id().expect("No ID exists");
    let triangle = NodeType::Triangle.as_net_id().expect("No ID exists");

    let constant = dsp.net_constant(&shared(2.2));
    let my_shared = dsp.shared_set(&"my_shared".to_string(), &shared(0.5));

    let my_network = dsp.net_product(hammond, organ);
    assert!(my_network.is_none());

    let my_network = dsp.net_product(hammond, constant);
    assert!(my_network.is_some());

    let my_network = dsp.net_product(my_network.unwrap(), my_shared);
    assert!(my_network.is_some());

    let my_network = dsp.net_bus(hammond, square);
    assert!(my_network.is_some());

    let my_network = dsp.net_bus(my_network.unwrap(), softsaw);
    assert!(my_network.is_some());
    let my_network = dsp.net_bus(my_network.unwrap(), triangle);
    assert!(my_network.is_some());
    let my_network = dsp.net_bus(my_network.unwrap(), saw);
    assert!(my_network.is_some());

    let my_network = dsp.net_bus(constant, my_shared);
    assert!(my_network.is_some());
    let my_network = dsp.net_bus(constant, constant);
    assert!(my_network.is_some());
    let my_network = dsp.net_bus(sine, my_shared);
    assert!(my_network.is_some());
    let my_network = dsp.net_bus(my_shared, sine);
    assert!(my_network.is_some());

    let my_network = dsp.net_pipe(my_network.unwrap(), sine);
    assert!(my_network.is_some());

    let my_network = dsp.net_pipe(sine, my_network.unwrap());
    assert!(my_network.is_some());

    let my_node_id = dsp.net_chain(my_network.unwrap(), &NodeType::Sine);
    assert!(my_node_id.is_some());
}

#[test]
fn handles_are_issued_in_order() {
    let mut dsp = DspModule::new();
    let len = dsp.net_vector_length();
    assert!(!dsp.net_exists(len));
    assert!(!dsp.net_exists(len + 5));
    let h = dsp.net_from(&Network::new(1, 2));
    assert_eq!(h, len);
    assert!(dsp.net_exists(h));
    assert!(!dsp.net_exists(h + 1));
}

#[test]
fn defaults_sit_at_fixed_handles() {
    let dsp = DspModule::new();
    let kinds = [
        NodeType::Hammond,
        NodeType::Organ,
        NodeType::Saw,
        NodeType::Sine,
        NodeType::SoftSaw,
        NodeType::Square,
        NodeType::Triangle,
    ];
    for (i, k) in kinds.iter().enumerate() {
        assert_eq!(k.as_net_id(), Some(i));
        let n = dsp.get_net(i).unwrap();
        assert_eq!((n.inputs(), n.outputs()), (1, 1));
    }
    assert_eq!(NodeType::from_name(&"softsaw".to_string()), Some(NodeType::SoftSaw));
    assert_eq!(NodeType::from_name(&"noise".to_string()), None);
}

#[test]
fn bus_with_a_source_sums() {
    let mut dsp = DspModule::new();
    let sine = NodeType::Sine.as_net_id().unwrap();
    let c = dsp.net_constant(&shared(1.0));
    // A bus would keep the sine's single input; a sum adds both operands' inputs.
    let h = dsp.net_bus(sine, c).unwrap();
    let n = dsp.get_net(h).unwrap();
    assert_eq!((n.inputs(), n.outputs()), (1, 1));
    let wide = dsp.net_from(&Network::new(0, 2));
    assert_eq!(dsp.net_bus(sine, wide), None);
    let two = dsp.net_from(&Network::new(2, 1));
    let s = dsp.net_bus(c, two).unwrap();
    let n = dsp.get_net(s).unwrap();
    assert_eq!((n.inputs(), n.outputs()), (2, 1));
}

#[test]
fn bus_of_two_inputs_keeps_inputs() {
    let mut dsp = DspModule::new();
    let a = dsp.net_from(&Network::new(2, 1));
    let b = dsp.net_from(&Network::new(2, 1));
    let h = dsp.net_bus(a, b).unwrap();
    let n = dsp.get_net(h).unwrap();
    assert_eq!((n.inputs(), n.outputs()), (2, 1));
    let c = dsp.net_from(&Network::new(3, 1));
    assert_eq!(dsp.net_bus(a, c), None);
}

#[test]
fn product_needs_a_source() {
    let mut dsp = DspModule::new();
    let with_input = dsp.net_from(&Network::new(1, 1));
    let len = dsp.net_vector_length();
    for a in 0..len {
        assert_eq!(dsp.net_product(a, with_input), None);
    }
    assert_eq!(dsp.net_vector_length(), len);
    let two = dsp.net_from(&Network::new(2, 1));
    let c = dsp.net_constant(&shared(0.5));
    let p = dsp.net_product(two, c).unwrap();
    let n = dsp.get_net(p).unwrap();
    assert_eq!((n.inputs(), n.outputs()), (2, 1));
}

#[test]
fn pipe_takes_inputs_of_first_and_outputs_of_second() {
    let mut dsp = DspModule::new();
    let a = dsp.net_from(&Network::new(2, 1));
    let b = dsp.net_from(&Network::new(1, 3));
    let p = dsp.net_pipe(a, b).unwrap();
    let n = dsp.get_net(p).unwrap();
    assert_eq!((n.inputs(), n.outputs()), (2, 3));
    assert_eq!(dsp.net_pipe(b, a), None);
    assert_eq!(dsp.net_pipe(a, 1000), None);
}

#[test]
fn replace_keeps_length() {
    let mut dsp = DspModule::new();
    let len = dsp.net_vector_length();
    assert_eq!(dsp.net_replace(2, &Network::new(4, 4)), Some(2));
    assert_eq!(dsp.net_vector_length(), len);
    let n = dsp.get_net(2).unwrap();
    assert_eq!((n.inputs(), n.outputs()), (4, 4));
    assert_eq!(dsp.net_replace(len, &Network::new(4, 4)), None);
    assert_eq!(dsp.net_vector_length(), len);
    let n = dsp.get_net(3).unwrap();
    assert_eq!((n.inputs(), n.outputs()), (1, 1));
}

#[test]
fn set_twice_keeps_handle_and_updates_value() {
    let mut dsp = DspModule::new();
    let name = "freq".to_string();
    let h1 = dsp.shared_set(&name, &shared(440.0));
    let len = dsp.net_vector_length();
    let h2 = dsp.shared_set(&name, &shared(220.0));
    assert_eq!(h1, h2);
    assert_eq!(dsp.net_vector_length(), len);
    assert_eq!(dsp.shared_get(&name).unwrap().value(), 220.0);
    assert_eq!(dsp.shared_get_net(&name), Some(h1));
    assert_eq!(dsp.shared_get_net(&"other".to_string()), None);
    assert!(dsp.shared_get(&"other".to_string()).is_none());
}

#[test]
fn parameter_tap_follows_the_cell() {
    let mut dsp = DspModule::new();
    let name = "level".to_string();
    let h = dsp.shared_set(&name, &shared(0.25));
    let tap = dsp.get_net(h).unwrap();
    assert_eq!((tap.inputs(), tap.outputs()), (0, 1));
    let mut net = tap.into_net();
    assert_eq!(net.get_mono(), 0.25);
    dsp.shared_set(&name, &shared(0.75));
    assert_eq!(net.get_mono(), 0.75);
}

#[test]
fn constant_holds_its_value() {
    let mut dsp = DspModule::new();
    let cell = shared(3.0);
    let h = dsp.net_constant(&cell);
    cell.set(5.0);
    let mut net = dsp.get_net(h).unwrap().into_net();
    assert_eq!(net.get_mono(), 3.0);
}

#[test]
fn clone_and_commit() {
    let mut dsp = DspModule::new();
    let len = dsp.net_vector_length();
    assert_eq!(dsp.net_clone(0), Some(len));
    assert_eq!(dsp.net_clone(len + 10), None);
    dsp.net_commit(0);
    dsp.net_commit(len + 10);
    assert_eq!(dsp.net_vector_length(), len + 1);
    assert_eq!(dsp.net_chain(len + 10, &NodeType::Saw), None);
    let n = dsp.get_net(len).unwrap();
    assert!(!n.has_backend());
}

#[test]
fn bus_of_constants_plays_their_sum() {
    let mut dsp = DspModule::new();
    let a = dsp.net_constant(&shared(1.0));
    let b = dsp.net_constant(&shared(2.0));
    let h = dsp.net_bus(a, b).unwrap();
    let mut net = dsp.get_net(h).unwrap().into_net();
    assert_eq!(net.get_mono(), 3.0);
    let p = dsp.net_product(h, b).unwrap();
    let mut net = dsp.get_net(p).unwrap().into_net();
    assert_eq!(net.get_mono(), 6.0);
}
