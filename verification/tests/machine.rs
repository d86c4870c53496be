use vm_agent::addr::Ipv4Address;
use vm_agent::config::BootstrapConfig;
use vm_agent::error::{BootstrapError, Fault};
use vm_agent::machine::{Action, Agent, Event, Phase, Stage};
use vm_agent::model::{AddressAssignment, LinkRecord, RouteEntry};
use vm_agent::vsock::ChannelEndpoint;

fn eth0_links(index: u32) -> Event {
    Event::Links(vec![
        LinkRecord::new("lo".to_string(), 1),
        LinkRecord::new("eth0".to_string(), index),
    ])
}

fn agent_at(stage: Stage) -> Agent {
    let mut agent = Agent::new(BootstrapConfig::fixed());
    let events = vec![
        Event::Started,
        Event::Completed,
        Event::Completed,
        eth0_links(2),
        Event::Completed,
        Event::Completed,
        Event::Completed,
        Event::Completed,
        Event::Completed,
        Event::Completed,
    ];
    for event in events {
        if agent.stage() == stage {
            break;
        }
        agent.step(event);
    }
    assert_eq!(agent.stage(), stage);
    agent
}

fn working_stages() -> Vec<Stage> {
    vec![
        Stage::Start,
        Stage::OpeningChannel,
        Stage::SpawningPump,
        Stage::ResolvingInterface,
        Stage::AssigningAddress { index: 2 },
        Stage::RaisingLink { index: 2 },
        Stage::InstallingRoute { index: 2 },
        Stage::BindingListener,
        Stage::HandingOff,
        Stage::Serving,
    ]
}

#[test]
fn new_agent_is_at_start() {
    let agent = Agent::new(BootstrapConfig::fixed());
    assert_eq!(agent.stage(), Stage::Start);
    assert_eq!(agent.phase(), Phase::Start);
    assert_eq!(agent.pending(), None);
    assert_eq!(agent.error(), None);
    assert_eq!(agent.interface(), None);
    assert_eq!(agent.config(), &BootstrapConfig::fixed());
}

#[test]
fn run_without_failure_follows_the_plan() {
    let mut agent = Agent::new(BootstrapConfig::fixed());
    assert_eq!(agent.step(Event::Started), Action::OpenChannel);
    assert_eq!(agent.phase(), Phase::NetworkConfiguring);
    assert_eq!(agent.step(Event::Completed), Action::SpawnPump);
    assert_eq!(agent.step(Event::Completed), Action::QueryLinks);
    assert_eq!(
        agent.step(eth0_links(2)),
        Action::AssignAddress(AddressAssignment {
            index: 2,
            address: Ipv4Address::new(172, 16, 0, 2),
            prefix_length: 24,
        })
    );
    assert_eq!(agent.interface().unwrap().index(), 2);
    assert_eq!(agent.interface().unwrap().name(), "eth0");
    assert_eq!(agent.step(Event::Completed), Action::SetLinkUp { index: 2 });
    assert_eq!(
        agent.step(Event::Completed),
        Action::AddDefaultRoute(RouteEntry {
            destination: Ipv4Address::new(0, 0, 0, 0),
            destination_prefix_length: 0,
            gateway: Ipv4Address::new(172, 16, 0, 1),
            input_interface_index: 2,
        })
    );
    assert_eq!(agent.phase(), Phase::NetworkConfiguring);
    assert_eq!(
        agent.step(Event::Completed),
        Action::BindListener(ChannelEndpoint { context_id: u32::MAX, port: 8000 })
    );
    assert_eq!(agent.phase(), Phase::NetworkReady);
    assert_eq!(agent.step(Event::Completed), Action::Serve);
    assert_eq!(agent.phase(), Phase::ListenerBound);
    assert_eq!(agent.step(Event::Completed), Action::AwaitServing);
    assert_eq!(agent.phase(), Phase::Serving);
    assert_eq!(agent.step(Event::Completed), Action::Finish);
    assert_eq!(agent.phase(), Phase::Stopped);
    assert_eq!(agent.error(), None);
}

#[test]
fn pending_is_the_operation_last_issued() {
    let mut agent = Agent::new(BootstrapConfig::fixed());
    let events = vec![
        Event::Started,
        Event::Completed,
        Event::Completed,
        eth0_links(4),
        Event::Completed,
        Event::Completed,
        Event::Completed,
        Event::Completed,
        Event::Completed,
        Event::Completed,
        Event::Completed,
    ];
    for event in events {
        let action = agent.step(event);
        assert_eq!(agent.pending(), Some(action));
    }
}

#[test]
fn stages_belong_to_their_phases() {
    assert_eq!(Stage::Start.phase(), Phase::Start);
    assert_eq!(Stage::OpeningChannel.phase(), Phase::NetworkConfiguring);
    assert_eq!(Stage::SpawningPump.phase(), Phase::NetworkConfiguring);
    assert_eq!(Stage::ResolvingInterface.phase(), Phase::NetworkConfiguring);
    assert_eq!(Stage::AssigningAddress { index: 1 }.phase(), Phase::NetworkConfiguring);
    assert_eq!(Stage::RaisingLink { index: 1 }.phase(), Phase::NetworkConfiguring);
    assert_eq!(Stage::InstallingRoute { index: 1 }.phase(), Phase::NetworkConfiguring);
    assert_eq!(Stage::BindingListener.phase(), Phase::NetworkReady);
    assert_eq!(Stage::HandingOff.phase(), Phase::ListenerBound);
    assert_eq!(Stage::Serving.phase(), Phase::Serving);
    assert_eq!(Stage::Stopped.phase(), Phase::Stopped);
    assert_eq!(Stage::Failed { error: BootstrapError::BindFailed }.phase(), Phase::Failed);
}

#[test]
fn only_stopped_and_failed_are_terminal() {
    for stage in working_stages() {
        assert!(!stage.is_terminal());
    }
    assert!(Stage::Stopped.is_terminal());
    assert!(Stage::Failed { error: BootstrapError::TransportError }.is_terminal());
}

#[test]
fn following_walks_the_plan() {
    assert_eq!(Stage::Start.following(), None);
    assert_eq!(Stage::OpeningChannel.following(), Some(Stage::SpawningPump));
    assert_eq!(Stage::SpawningPump.following(), Some(Stage::ResolvingInterface));
    assert_eq!(Stage::ResolvingInterface.following(), None);
    assert_eq!(
        Stage::AssigningAddress { index: 6 }.following(),
        Some(Stage::RaisingLink { index: 6 })
    );
    assert_eq!(
        Stage::RaisingLink { index: 6 }.following(),
        Some(Stage::InstallingRoute { index: 6 })
    );
    assert_eq!(Stage::InstallingRoute { index: 6 }.following(), Some(Stage::BindingListener));
    assert_eq!(Stage::BindingListener.following(), Some(Stage::HandingOff));
    assert_eq!(Stage::HandingOff.following(), Some(Stage::Serving));
    assert_eq!(Stage::Serving.following(), Some(Stage::Stopped));
    assert_eq!(Stage::Stopped.following(), None);
    assert_eq!(Stage::Failed { error: BootstrapError::BindFailed }.following(), None);
}

#[test]
fn lost_request_on_the_kernel_channel_is_a_transport_error() {
    for stage in [
        Stage::OpeningChannel,
        Stage::SpawningPump,
        Stage::ResolvingInterface,
        Stage::AssigningAddress { index: 2 },
        Stage::RaisingLink { index: 2 },
        Stage::InstallingRoute { index: 2 },
    ] {
        assert_eq!(stage.classify(Fault::Transport), BootstrapError::TransportError);
        let mut agent = agent_at(stage);
        assert_eq!(
            agent.step(Event::Failed(Fault::Transport)),
            Action::Abort { error: BootstrapError::TransportError }
        );
        assert_eq!(agent.error(), Some(BootstrapError::TransportError));
        assert_eq!(agent.phase(), Phase::Failed);
    }
}

#[test]
fn refused_configuration_is_configuration_rejected() {
    for stage in [
        Stage::AssigningAddress { index: 2 },
        Stage::RaisingLink { index: 2 },
        Stage::InstallingRoute { index: 2 },
    ] {
        assert_eq!(stage.classify(Fault::Rejected), BootstrapError::ConfigurationRejected);
        let mut agent = agent_at(stage);
        assert_eq!(
            agent.step(Event::Failed(Fault::Rejected)),
            Action::Abort { error: BootstrapError::ConfigurationRejected }
        );
        assert_eq!(agent.error(), Some(BootstrapError::ConfigurationRejected));
    }
}

#[test]
fn refused_query_is_a_transport_error() {
    for stage in [Stage::OpeningChannel, Stage::SpawningPump, Stage::ResolvingInterface] {
        assert_eq!(stage.classify(Fault::Rejected), BootstrapError::TransportError);
    }
    let mut agent = agent_at(Stage::ResolvingInterface);
    assert_eq!(
        agent.step(Event::Failed(Fault::Rejected)),
        Action::Abort { error: BootstrapError::TransportError }
    );
}

#[test]
fn any_failure_to_bind_is_bind_failed() {
    for fault in [Fault::Transport, Fault::Rejected, Fault::Other] {
        assert_eq!(Stage::BindingListener.classify(fault), BootstrapError::BindFailed);
        let mut agent = agent_at(Stage::BindingListener);
        assert_eq!(
            agent.step(Event::Failed(fault)),
            Action::Abort { error: BootstrapError::BindFailed }
        );
        assert_eq!(agent.error(), Some(BootstrapError::BindFailed));
    }
}

#[test]
fn failure_of_the_serving_layer_is_unhandled() {
    for stage in [Stage::HandingOff, Stage::Serving] {
        for fault in [Fault::Transport, Fault::Rejected, Fault::Other] {
            assert_eq!(stage.classify(fault), BootstrapError::UnhandledError);
            let mut agent = agent_at(stage);
            assert_eq!(
                agent.step(Event::Failed(fault)),
                Action::Abort { error: BootstrapError::UnhandledError }
            );
        }
    }
}

#[test]
fn other_faults_are_unhandled() {
    for stage in working_stages() {
        if stage != Stage::BindingListener {
            assert_eq!(stage.classify(Fault::Other), BootstrapError::UnhandledError);
        }
    }
    assert_eq!(Stage::Start.classify(Fault::Transport), BootstrapError::UnhandledError);
    assert_eq!(Stage::Stopped.classify(Fault::Rejected), BootstrapError::UnhandledError);
}

#[test]
fn absent_interface_is_resource_not_found() {
    let mut agent = agent_at(Stage::ResolvingInterface);
    let action = agent.step(Event::Links(vec![LinkRecord::new("lo".to_string(), 1)]));
    assert_eq!(action, Action::Abort { error: BootstrapError::ResourceNotFound });
    assert_eq!(agent.stage(), Stage::Failed { error: BootstrapError::ResourceNotFound });
    assert_eq!(agent.interface(), None);

    let mut agent = agent_at(Stage::ResolvingInterface);
    let action = agent.step(Event::Links(Vec::new()));
    assert_eq!(action, Action::Abort { error: BootstrapError::ResourceNotFound });
}

#[test]
fn event_that_the_stage_does_not_expect_is_unhandled() {
    let unhandled = Action::Abort { error: BootstrapError::UnhandledError };
    for stage in working_stages() {
        if stage != Stage::Start {
            assert_eq!(agent_at(stage).step(Event::Started), unhandled);
        }
        if stage != Stage::ResolvingInterface {
            assert_eq!(agent_at(stage).step(eth0_links(2)), unhandled);
        }
    }
    assert_eq!(agent_at(Stage::Start).step(Event::Completed), unhandled);
    assert_eq!(agent_at(Stage::ResolvingInterface).step(Event::Completed), unhandled);
    assert_eq!(agent_at(Stage::Start).step(Event::Failed(Fault::Transport)), unhandled);
}

#[test]
fn failed_agent_stays_failed() {
    let mut agent = agent_at(Stage::RaisingLink { index: 2 });
    agent.step(Event::Failed(Fault::Rejected));
    let failed = agent.stage();
    assert_eq!(failed, Stage::Failed { error: BootstrapError::ConfigurationRejected });
    for event in [
        Event::Started,
        Event::Completed,
        eth0_links(2),
        Event::Failed(Fault::Transport),
        Event::Failed(Fault::Other),
    ] {
        assert_eq!(
            agent.step(event),
            Action::Abort { error: BootstrapError::ConfigurationRejected }
        );
        assert_eq!(agent.stage(), failed);
    }
}

#[test]
fn stopped_agent_stays_stopped() {
    let mut agent = agent_at(Stage::Serving);
    assert_eq!(agent.step(Event::Completed), Action::Finish);
    for event in [Event::Started, Event::Completed, eth0_links(2), Event::Failed(Fault::Other)] {
        assert_eq!(agent.step(event), Action::Finish);
        assert_eq!(agent.stage(), Stage::Stopped);
    }
}

#[test]
fn step_never_changes_the_config() {
    let config = BootstrapConfig::new(
        "ens3".to_string(),
        Ipv4Address::new(10, 0, 0, 7),
        16,
        Ipv4Address::new(10, 0, 0, 1),
        9000,
    )
    .unwrap();
    let mut agent = Agent::new(config.clone());
    for event in [Event::Started, Event::Completed, Event::Failed(Fault::Transport)] {
        agent.step(event);
        assert_eq!(agent.config(), &config);
    }
}

#[test]
fn operations_carry_the_configured_values() {
    let config = BootstrapConfig::new(
        "ens3".to_string(),
        Ipv4Address::new(10, 0, 0, 7),
        16,
        Ipv4Address::new(10, 0, 0, 1),
        9000,
    )
    .unwrap();
    let mut agent = Agent::new(config);
    agent.step(Event::Started);
    agent.step(Event::Completed);
    agent.step(Event::Completed);
    let links = Event::Links(vec![
        LinkRecord::new("eth0".to_string(), 2),
        LinkRecord::new("ens3".to_string(), 3),
    ]);
    assert_eq!(
        agent.step(links),
        Action::AssignAddress(AddressAssignment {
            index: 3,
            address: Ipv4Address::new(10, 0, 0, 7),
            prefix_length: 16,
        })
    );
    assert_eq!(agent.step(Event::Completed), Action::SetLinkUp { index: 3 });
    assert_eq!(
        agent.step(Event::Completed),
        Action::AddDefaultRoute(RouteEntry {
            destination: Ipv4Address::unspecified(),
            destination_prefix_length: 0,
            gateway: Ipv4Address::new(10, 0, 0, 1),
            input_interface_index: 3,
        })
    );
    assert_eq!(agent.step(Event::Completed), Action::BindListener(ChannelEndpoint::wildcard(9000)));
}
