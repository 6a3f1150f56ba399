use toref::blocks::standard::{Cycle, SetReset, Switch};
use toref::blocks::MockFunctionBlock;
use toref::protocol::server::{Action, Data, Error, FunctionBlock as Entry};
use toref::runtime::container::{AddError, ConnectError, Container, PortDestination, SimpleContainer};
use toref::runtime::emb_res::EmbeddedResource;
use toref::runtime::factory::{CreationError, Creator, FunctionBlockFactory, StandardFactory};
use toref::runtime::fb::{refuse, FunctionBlock};
use toref::runtime::root::RootFactory;
use toref::runtime::{reply_or_not_ready, Request};

fn standard() -> StandardFactory {
    let mut factory = StandardFactory::new();
    factory.register_standard_types();
    factory
}

fn root() -> SimpleContainer<RootFactory<StandardFactory>> {
    SimpleContainer::new(RootFactory::new(standard()))
}

fn fb(name: &str, type_tag: &str) -> Option<Data> {
    Some(Data::FunctionBlock { name: name.to_string(), type_tag: type_tag.to_string() })
}

fn connection(source: &str, destination: &str) -> Option<Data> {
    Some(Data::Connection { source: source.to_string(), destination: destination.to_string() })
}

fn entry(name: &str, type_tag: &str) -> Entry {
    Entry { name: name.to_string(), type_tag: type_tag.to_string() }
}

fn list(entries: Vec<Entry>) -> Result<Option<Data>, Error> {
    Ok(Some(Data::FunctionBlockList(entries)))
}

#[test]
fn query_on_empty_root_gives_no_data() {
    let mut root = root();
    assert_eq!(root.process_request(Request::new("", Action::Query, fb("*", "*"))), Ok(None));
}

#[test]
fn created_resource_is_listed() {
    let mut root = root();
    assert_eq!(root.process_request(Request::new("", Action::Create, fb("r", "EMB_RES"))), Ok(None));
    assert_eq!(
        root.process_request(Request::new("", Action::Query, fb("*", "*"))),
        list(vec![entry("r", "EMB_RES")])
    );
}

#[test]
fn block_created_inside_resource_is_listed_there() {
    let mut root = root();
    assert_eq!(root.process_request(Request::new("", Action::Create, fb("r", "EMB_RES"))), Ok(None));
    assert_eq!(root.process_request(Request::new("r", Action::Create, fb("s", "E_SR"))), Ok(None));
    assert_eq!(
        root.process_request(Request::new("r", Action::Query, fb("*", "*"))),
        list(vec![entry("s", "E_SR")])
    );
    assert_eq!(
        root.process_request(Request::new("", Action::Query, fb("*", "*"))),
        list(vec![entry("r", "EMB_RES")])
    );
}

#[test]
fn connection_between_siblings() {
    let mut root = root();
    assert_eq!(root.process_request(Request::new("", Action::Create, fb("r", "EMB_RES"))), Ok(None));
    assert_eq!(root.process_request(Request::new("r", Action::Create, fb("s", "E_SR"))), Ok(None));
    assert_eq!(
        root.process_request(Request::new("r", Action::Create, connection("s.Q", "s.G"))),
        Err(Error::InvalidObject)
    );
    assert_eq!(
        root.process_request(Request::new("r", Action::Create, connection("s.Q", "w.G"))),
        Err(Error::NoSuchObject)
    );
    assert_eq!(root.process_request(Request::new("r", Action::Create, fb("w", "E_SWITCH"))), Ok(None));
    assert_eq!(
        root.process_request(Request::new("r", Action::Create, connection("s.Q", "w.G"))),
        Ok(None)
    );
    assert_eq!(
        root.process_request(Request::new("r", Action::Create, connection("s.X", "w.G"))),
        Err(Error::InvalidObject)
    );
    assert_eq!(
        root.process_request(Request::new("r", Action::Create, connection("t.Q", "w.G"))),
        Err(Error::NoSuchObject)
    );
}

#[test]
fn second_create_of_a_name_is_a_duplicate() {
    let mut root = root();
    assert_eq!(root.process_request(Request::new("", Action::Create, fb("r", "EMB_RES"))), Ok(None));
    assert_eq!(
        root.process_request(Request::new("", Action::Create, fb("r", "EMB_RES"))),
        Err(Error::DuplicateObject)
    );
    assert_eq!(
        root.process_request(Request::new("", Action::Query, fb("*", "*"))),
        list(vec![entry("r", "EMB_RES")])
    );
}

#[test]
fn duplicate_is_reported_before_unknown_type() {
    let mut root = root();
    assert_eq!(root.process_request(Request::new("", Action::Create, fb("r", "EMB_RES"))), Ok(None));
    assert_eq!(
        root.process_request(Request::new("", Action::Create, fb("r", "NOPE"))),
        Err(Error::DuplicateObject)
    );
}

#[test]
fn unknown_type_is_unsupported() {
    let mut root = root();
    assert_eq!(
        root.process_request(Request::new("", Action::Create, fb("x", "NOPE"))),
        Err(Error::UnsupportedType)
    );
    assert_eq!(root.process_request(Request::new("", Action::Query, fb("*", "*"))), Ok(None));
}

#[test]
fn root_hosts_resources_only() {
    let mut root = root();
    assert_eq!(
        root.process_request(Request::new("", Action::Create, fb("s", "E_SR"))),
        Err(Error::UnsupportedType)
    );
}

#[test]
fn resource_does_not_host_resources() {
    let mut root = root();
    assert_eq!(root.process_request(Request::new("", Action::Create, fb("r", "EMB_RES"))), Ok(None));
    assert_eq!(
        root.process_request(Request::new("r", Action::Create, fb("q", "EMB_RES"))),
        Err(Error::UnsupportedType)
    );
}

#[test]
fn names_are_case_sensitive() {
    let mut root = root();
    assert_eq!(root.process_request(Request::new("", Action::Create, fb("r", "EMB_RES"))), Ok(None));
    assert_eq!(root.process_request(Request::new("", Action::Create, fb("R", "EMB_RES"))), Ok(None));
    assert_eq!(
        root.process_request(Request::new("", Action::Create, fb("x", "emb_res"))),
        Err(Error::UnsupportedType)
    );
    assert_eq!(
        root.process_request(Request::new("", Action::Query, fb("*", "*"))),
        list(vec![entry("r", "EMB_RES"), entry("R", "EMB_RES")])
    );
}

#[test]
fn names_may_repeat_across_containers() {
    let mut root = root();
    assert_eq!(root.process_request(Request::new("", Action::Create, fb("a", "EMB_RES"))), Ok(None));
    assert_eq!(root.process_request(Request::new("", Action::Create, fb("b", "EMB_RES"))), Ok(None));
    assert_eq!(root.process_request(Request::new("a", Action::Create, fb("s", "E_SR"))), Ok(None));
    assert_eq!(root.process_request(Request::new("b", Action::Create, fb("s", "E_CYCLE"))), Ok(None));
    assert_eq!(
        root.process_request(Request::new("a", Action::Query, fb("*", "*"))),
        list(vec![entry("s", "E_SR")])
    );
    assert_eq!(
        root.process_request(Request::new("b", Action::Query, fb("*", "*"))),
        list(vec![entry("s", "E_CYCLE")])
    );
}

#[test]
fn delete_of_a_missing_name_succeeds() {
    let mut root = root();
    assert_eq!(root.process_request(Request::new("", Action::Delete, fb("nobody", "*"))), Ok(None));
    assert_eq!(root.process_request(Request::new("", Action::Query, fb("*", "*"))), Ok(None));
}

#[test]
fn delete_removes_the_child_and_its_subtree() {
    let mut root = root();
    assert_eq!(root.process_request(Request::new("", Action::Create, fb("r", "EMB_RES"))), Ok(None));
    assert_eq!(root.process_request(Request::new("", Action::Create, fb("q", "EMB_RES"))), Ok(None));
    assert_eq!(root.process_request(Request::new("r", Action::Create, fb("s", "E_SR"))), Ok(None));
    assert_eq!(root.process_request(Request::new("", Action::Delete, fb("r", "ignored"))), Ok(None));
    assert_eq!(
        root.process_request(Request::new("", Action::Query, fb("*", "*"))),
        list(vec![entry("q", "EMB_RES")])
    );
    assert_eq!(
        root.process_request(Request::new("r", Action::Query, fb("*", "*"))),
        Err(Error::InvalidDestination)
    );
    assert_eq!(root.process_request(Request::new("", Action::Delete, fb("r", "ignored"))), Ok(None));
    assert_eq!(root.process_request(Request::new("", Action::Create, fb("r", "EMB_RES"))), Ok(None));
    assert_eq!(root.process_request(Request::new("r", Action::Query, fb("*", "*"))), Ok(None));
}

#[test]
fn request_to_a_child_is_handled_by_the_child() {
    let mut root = root();
    assert_eq!(root.process_request(Request::new("", Action::Create, fb("r", "EMB_RES"))), Ok(None));
    assert_eq!(root.process_request(Request::new("r", Action::Start, None)), Ok(None));
    assert_eq!(
        root.process_request(Request::new("", Action::Start, None)),
        Err(Error::InvalidOperation)
    );
}

#[test]
fn request_beyond_a_leaf_has_no_destination() {
    let mut root = root();
    assert_eq!(root.process_request(Request::new("", Action::Create, fb("r", "EMB_RES"))), Ok(None));
    assert_eq!(root.process_request(Request::new("r", Action::Create, fb("s", "E_SR"))), Ok(None));
    assert_eq!(
        root.process_request(Request::new("r.s.x", Action::Query, fb("*", "*"))),
        Err(Error::InvalidDestination)
    );
    assert_eq!(
        root.process_request(Request::new("r.s", Action::Query, fb("*", "*"))),
        Err(Error::InvalidOperation)
    );
}

#[test]
fn request_to_a_missing_child_has_no_destination() {
    let mut root = root();
    assert_eq!(
        root.process_request(Request::new("nobody", Action::Query, fb("*", "*"))),
        Err(Error::InvalidDestination)
    );
    assert_eq!(root.process_request(Request::new("", Action::Create, fb("r", "EMB_RES"))), Ok(None));
    assert_eq!(
        root.process_request(Request::new("r.nobody", Action::Query, fb("*", "*"))),
        Err(Error::InvalidDestination)
    );
}

#[test]
fn failed_connection_leaves_the_container_unchanged() {
    let mut root = root();
    assert_eq!(root.process_request(Request::new("", Action::Create, fb("r", "EMB_RES"))), Ok(None));
    assert_eq!(root.process_request(Request::new("r", Action::Create, fb("s", "E_SR"))), Ok(None));
    assert_eq!(root.process_request(Request::new("r", Action::Create, fb("w", "E_SWITCH"))), Ok(None));
    let before = root.process_request(Request::new("r", Action::Query, fb("*", "*")));
    for (source, destination, error) in [
        ("s.Q", "w.X", Error::InvalidObject),
        ("s.X", "w.G", Error::InvalidObject),
        ("s.Q", "n.G", Error::NoSuchObject),
        ("n.Q", "w.G", Error::NoSuchObject),
        ("w.G", "s.Q", Error::InvalidObject),
        ("sQ", "w.G", Error::InvalidDestination),
        ("s.Q", "w.G.x", Error::InvalidDestination),
        ("", "", Error::InvalidDestination),
    ] {
        assert_eq!(
            root.process_request(Request::new("r", Action::Create, connection(source, destination))),
            Err(error)
        );
        assert_eq!(root.process_request(Request::new("r", Action::Query, fb("*", "*"))), before);
        assert_eq!(
            root.process_request(Request::new("r", Action::Delete, connection("s.Q", "w.G"))),
            Err(Error::NoSuchObject)
        );
    }
}

#[test]
fn connection_is_installed_and_removed() {
    let mut root = root();
    assert_eq!(root.process_request(Request::new("", Action::Create, fb("r", "EMB_RES"))), Ok(None));
    assert_eq!(root.process_request(Request::new("r", Action::Create, fb("s", "E_SR"))), Ok(None));
    assert_eq!(root.process_request(Request::new("r", Action::Create, fb("c", "E_CYCLE"))), Ok(None));
    assert_eq!(
        root.process_request(Request::new("r", Action::Delete, connection("s.Q", "c.DT"))),
        Err(Error::NoSuchObject)
    );
    assert_eq!(
        root.process_request(Request::new("r", Action::Create, connection("s.Q", "c.DT"))),
        Ok(None)
    );
    assert_eq!(
        root.process_request(Request::new("r", Action::Create, connection("s.Q", "c.DT"))),
        Ok(None)
    );
    assert_eq!(
        root.process_request(Request::new("r", Action::Delete, connection("s.Q", "c.DT"))),
        Ok(None)
    );
    assert_eq!(
        root.process_request(Request::new("r", Action::Delete, connection("s.Q", "c.DT"))),
        Err(Error::NoSuchObject)
    );
    assert_eq!(
        root.process_request(Request::new("r", Action::Delete, connection("s.Q", "c.X"))),
        Err(Error::InvalidObject)
    );
    assert_eq!(
        root.process_request(Request::new("r", Action::Delete, connection("s.Q", "cDT"))),
        Err(Error::InvalidDestination)
    );
}

#[test]
fn start_and_stop_always_succeed() {
    let mut root = root();
    assert_eq!(root.process_request(Request::new("", Action::Create, fb("r", "EMB_RES"))), Ok(None));
    for action in [
        Action::Stop,
        Action::Start,
        Action::Start,
        Action::Stop,
        Action::Stop,
        Action::Kill,
        Action::Kill,
        Action::Start,
        Action::Kill,
    ] {
        assert_eq!(root.process_request(Request::new("r", action, None)), Ok(None));
        assert_eq!(root.process_request(Request::new("r", action, fb("*", "*"))), Ok(None));
        assert_eq!(root.process_request(Request::new("r", action, Some(Data::Watches))), Ok(None));
    }
}

#[test]
fn resource_lifecycle() {
    let mut res = EmbeddedResource::new(standard());
    assert!(!res.is_running());
    res.start();
    assert!(res.is_running());
    res.start();
    assert!(res.is_running());
    res.stop();
    assert!(!res.is_running());
    res.stop();
    assert!(!res.is_running());
    assert_eq!(res.request(Request::new("", Action::Start, None)), Ok(None));
    assert!(res.is_running());
    assert_eq!(res.request(Request::new("", Action::Kill, None)), Ok(None));
    assert!(!res.is_running());
    assert_eq!(res.request(Request::new("", Action::Start, None)), Ok(None));
    assert_eq!(res.request(Request::new("", Action::Stop, None)), Ok(None));
    assert!(!res.is_running());
    assert_eq!(res.type_tag(), "EMB_RES");
    assert!(res.get_data_input("G").is_none());
    assert!(res.get_data_output("Q").is_none());
}

#[test]
fn resource_routes_without_looking_at_its_state() {
    let mut res = EmbeddedResource::new(RootFactory::new(standard()));
    assert_eq!(res.request(Request::new("", Action::Create, fb("inner", "EMB_RES"))), Ok(None));
    assert_eq!(res.request(Request::new("inner", Action::Create, fb("s", "E_SR"))), Ok(None));
    assert!(!res.is_running());
    assert_eq!(res.request(Request::new("inner", Action::Start, None)), Ok(None));
    assert!(!res.is_running());
    assert_eq!(
        res.request(Request::new("inner", Action::Query, fb("*", "*"))),
        list(vec![entry("s", "E_SR")])
    );
    assert_eq!(
        res.request(Request::new("nobody", Action::Start, None)),
        Err(Error::InvalidDestination)
    );
}

#[test]
fn local_operations_that_are_not_modelled() {
    let mut root = root();
    for (action, data) in [
        (Action::Write, fb("a", "b")),
        (Action::Reset, fb("a", "b")),
        (Action::Kill, fb("a", "b")),
        (Action::Start, None),
        (Action::Stop, None),
        (Action::Read, fb("a", "b")),
        (Action::Query, Some(Data::Watches)),
        (Action::Query, None),
        (Action::Create, None),
        (Action::Create, Some(Data::Watches)),
        (Action::Delete, Some(Data::Watches)),
        (Action::Query, Some(Data::FunctionBlockList(vec![]))),
        (Action::Create, Some(Data::FunctionBlockList(vec![entry("a", "EMB_RES")]))),
        (Action::Query, connection("a.b", "c.d")),
        (Action::Read, None),
    ] {
        assert_eq!(
            root.process_request(Request::new("", action, data)),
            Err(Error::InvalidOperation)
        );
    }
}

#[test]
fn read_watches_is_a_no_op() {
    let mut root = root();
    assert_eq!(root.process_request(Request::new("", Action::Read, Some(Data::Watches))), Ok(None));
}

#[test]
fn query_of_a_concrete_name_gives_no_data() {
    let mut root = root();
    assert_eq!(root.process_request(Request::new("", Action::Create, fb("r", "EMB_RES"))), Ok(None));
    assert_eq!(root.process_request(Request::new("", Action::Query, fb("r", "EMB_RES"))), Ok(None));
    assert_eq!(root.process_request(Request::new("", Action::Query, fb("*", "EMB_RES"))), Ok(None));
    assert_eq!(root.process_request(Request::new("", Action::Query, fb("r", "*"))), Ok(None));
}

#[test]
fn children_are_listed_oldest_first() {
    let mut container = SimpleContainer::new(standard());
    assert_eq!(container.add_child("b".to_string(), "E_SR"), Ok(()));
    assert_eq!(container.add_child("a".to_string(), "E_CYCLE"), Ok(()));
    assert_eq!(container.add_child("c".to_string(), "E_SWITCH"), Ok(()));
    assert_eq!(
        container.local_process_request(Request::new("", Action::Query, fb("*", "*"))),
        list(vec![entry("b", "E_SR"), entry("a", "E_CYCLE"), entry("c", "E_SWITCH")])
    );
    container.remove_child("a");
    assert_eq!(
        container.local_process_request(Request::new("", Action::Query, fb("*", "*"))),
        list(vec![entry("b", "E_SR"), entry("c", "E_SWITCH")])
    );
}

#[test]
fn container_operations() {
    let mut container = SimpleContainer::new(standard());
    assert_eq!(container.add_child("s".to_string(), "E_SR"), Ok(()));
    assert_eq!(container.add_child("s".to_string(), "E_SR"), Err(AddError::ItemAlreadyExist));
    assert_eq!(container.add_child("s".to_string(), "NOPE"), Err(AddError::ItemAlreadyExist));
    assert_eq!(container.add_child("t".to_string(), "NOPE"), Err(AddError::UnknownType));
    assert_eq!(container.add_child("w".to_string(), "E_SWITCH"), Ok(()));
    let port = |text: &str| PortDestination::from_str(text).unwrap();
    assert_eq!(container.connect(port("x.Q"), port("w.G")), Err(ConnectError::UnknownBlock));
    assert_eq!(container.connect(port("s.G"), port("w.G")), Err(ConnectError::UnknownPort));
    assert_eq!(container.connect(port("s.Q"), port("x.G")), Err(ConnectError::UnknownBlock));
    assert_eq!(container.connect(port("s.Q"), port("w.Q")), Err(ConnectError::UnknownPort));
    assert_eq!(container.connect(port("x.Q"), port("y.G")), Err(ConnectError::UnknownBlock));
    assert_eq!(container.disconnect(port("s.Q"), port("w.G")), Err(ConnectError::UnknownBinding));
    assert_eq!(container.connect(port("s.Q"), port("w.G")), Ok(()));
    assert_eq!(container.disconnect(port("x.Q"), port("w.G")), Err(ConnectError::UnknownBlock));
    assert_eq!(container.disconnect(port("s.Q"), port("w.X")), Err(ConnectError::UnknownPort));
    assert_eq!(container.disconnect(port("s.Q"), port("w.G")), Ok(()));
    assert_eq!(container.disconnect(port("s.Q"), port("w.G")), Err(ConnectError::UnknownBinding));
    container.remove_child("nobody");
    container.remove_child("s");
    assert_eq!(container.connect(port("s.Q"), port("w.G")), Err(ConnectError::UnknownBlock));
}

#[test]
fn child_process_request_needs_the_child() {
    let mut container = SimpleContainer::new(standard());
    assert_eq!(container.add_child("s".to_string(), "E_SR"), Ok(()));
    assert_eq!(
        container.child_process_request("s".to_string(), Request::new("", Action::Query, fb("*", "*"))),
        Err(Error::InvalidOperation)
    );
    assert_eq!(
        container.child_process_request("s".to_string(), Request::new("x", Action::Query, fb("*", "*"))),
        Err(Error::InvalidDestination)
    );
    assert_eq!(
        container.child_process_request("t".to_string(), Request::new("", Action::Query, fb("*", "*"))),
        Err(Error::InvalidDestination)
    );
}

#[test]
fn errors_map_to_protocol_errors() {
    assert_eq!(Error::from(AddError::ItemAlreadyExist), Error::DuplicateObject);
    assert_eq!(Error::from(AddError::UnknownType), Error::UnsupportedType);
    assert_eq!(Error::from(AddError::Internal), Error::Unknown);
    assert_eq!(Error::from(ConnectError::UnknownBlock), Error::NoSuchObject);
    assert_eq!(Error::from(ConnectError::UnknownPort), Error::InvalidObject);
    assert_eq!(Error::from(ConnectError::UnknownBinding), Error::NoSuchObject);
}

#[test]
fn standard_factory_knows_the_standard_types() {
    let factory = standard();
    assert_eq!(factory.create("E_SR").ok().unwrap().type_tag(), "E_SR");
    assert_eq!(factory.create("E_CYCLE").ok().unwrap().type_tag(), "E_CYCLE");
    assert_eq!(factory.create("E_SWITCH").ok().unwrap().type_tag(), "E_SWITCH");
    assert_eq!(factory.create("EMB_RES").err(), Some(CreationError::UnknownType));
    assert_eq!(factory.create("").err(), Some(CreationError::UnknownType));
    assert_eq!(StandardFactory::new().create("E_SR").err(), Some(CreationError::UnknownType));
}

#[test]
fn root_factory_knows_resources_only() {
    let factory = RootFactory::new(standard());
    assert_eq!(factory.create("EMB_RES").ok().unwrap().type_tag(), "EMB_RES");
    assert_eq!(factory.create("EMB_RES").ok().unwrap().type_tag(), "EMB_RES");
    assert_eq!(factory.create("E_SR").err(), Some(CreationError::UnknownType));
    assert_eq!(factory.create("NOPE").err(), Some(CreationError::UnknownType));
}

#[test]
fn last_registration_wins() {
    let mut factory = StandardFactory::new();
    factory.register_type("X".to_string(), Box::new(MockFunctionBlock::creator("first")));
    assert_eq!(factory.create("X").ok().unwrap().type_tag(), "first");
    factory.register_type("X".to_string(), Box::new(MockFunctionBlock::creator("second")));
    assert_eq!(factory.create("X").ok().unwrap().type_tag(), "second");
    factory.register_type("Y".to_string(), Box::new(SetReset::new()));
    assert_eq!(factory.create("X").ok().unwrap().type_tag(), "second");
    assert_eq!(factory.create("Y").ok().unwrap().type_tag(), "E_SR");
}

#[test]
fn registered_type_can_be_created_in_a_resource() {
    let mut factory = standard();
    factory.register_type("MOCK".to_string(), Box::new(MockFunctionBlock::creator("MOCK")));
    let mut root = SimpleContainer::new(RootFactory::new(factory));
    assert_eq!(root.process_request(Request::new("", Action::Create, fb("r", "EMB_RES"))), Ok(None));
    assert_eq!(root.process_request(Request::new("r", Action::Create, fb("m", "MOCK"))), Ok(None));
    assert_eq!(
        root.process_request(Request::new("r", Action::Query, fb("*", "*"))),
        list(vec![entry("m", "MOCK")])
    );
    assert_eq!(
        root.process_request(Request::new("r.m", Action::Query, fb("*", "*"))),
        Err(Error::InvalidOperation)
    );
    assert_eq!(
        root.process_request(Request::new("r.m.x", Action::Query, fb("*", "*"))),
        Err(Error::InvalidDestination)
    );
}

#[test]
fn standard_blocks_have_their_tags_and_ports() {
    let sr = SetReset::new();
    assert_eq!(sr.type_tag(), "E_SR");
    assert!(sr.get_data_output("Q").is_some());
    assert!(sr.get_data_output("q").is_none());
    assert!(sr.get_data_input("Q").is_none());
    assert!(sr.get_event_input("Q").is_none());
    assert!(sr.get_event_output("Q").is_none());
    let cycle = Cycle::new();
    assert_eq!(cycle.type_tag(), "E_CYCLE");
    assert!(cycle.get_data_input("DT").is_some());
    assert!(cycle.get_data_input("G").is_none());
    assert!(cycle.get_data_output("DT").is_none());
    let switch = Switch::new();
    assert_eq!(switch.type_tag(), "E_SWITCH");
    assert!(switch.get_data_input("G").is_some());
    assert!(switch.get_data_input("DT").is_none());
    assert!(switch.get_data_output("G").is_none());
}

#[test]
fn leaf_blocks_refuse_requests() {
    let mut sr = SetReset::new();
    assert_eq!(sr.request(Request::new("", Action::Query, fb("*", "*"))), Err(Error::InvalidOperation));
    assert_eq!(sr.request(Request::new("x", Action::Query, fb("*", "*"))), Err(Error::InvalidDestination));
    let mut mock = MockFunctionBlock::creator("M").create().block;
    assert_eq!(mock.type_tag(), "M");
    assert_eq!(mock.request(Request::new("", Action::Start, None)), Err(Error::InvalidOperation));
    assert_eq!(mock.request(Request::new("a.b", Action::Start, None)), Err(Error::InvalidDestination));
    assert_eq!(refuse(&Request::new("", Action::Read, None)), Err(Error::InvalidOperation));
    assert_eq!(refuse(&Request::new("x", Action::Read, None)), Err(Error::InvalidDestination));
}

#[test]
fn creators_make_fresh_blocks() {
    assert_eq!(SetReset::new().create().block.type_tag(), "E_SR");
    assert_eq!(Cycle::new().create().block.type_tag(), "E_CYCLE");
    assert_eq!(Switch::new().create().block.type_tag(), "E_SWITCH");
}

#[test]
fn missing_reply_means_not_ready() {
    assert_eq!(reply_or_not_ready(None), Err(Error::NotReady));
    assert_eq!(reply_or_not_ready(Some(Ok(None))), Ok(None));
    assert_eq!(reply_or_not_ready(Some(Ok(Some(Data::Watches)))), Ok(Some(Data::Watches)));
    assert_eq!(
        reply_or_not_ready(Some(Err(Error::InvalidOperation))),
        Err(Error::InvalidOperation)
    );
}

#[test]
fn request_is_addressed_by_a_dotted_path() {
    let request = Request::new("r.s", Action::Delete, Some(Data::Watches));
    assert_eq!(request.destination.len(), 2);
    assert_eq!(request.action, Action::Delete);
    assert_eq!(request.data, Some(Data::Watches));
    let local = Request::new("", Action::Read, None);
    assert!(local.destination.is_empty());
}
