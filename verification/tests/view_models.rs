use oxker_tui::model::ContainerPorts;
use oxker_tui::view_models::{calculate_port_max_lens, create_container_title, sort_ports};

fn port(ip: Option<&str>, private: u16, public: Option<u16>) -> ContainerPorts {
    ContainerPorts {
        ip: ip.map(|s| s.to_string()),
        private,
        public,
    }
}

#[test]
fn test_port_sorting_ascending_by_public_port() {
    let ports = vec![
        port(Some("0.0.0.0"), 80, Some(8080)),
        port(Some("0.0.0.0"), 443, Some(443)),
        port(Some("0.0.0.0"), 22, Some(2222)),
    ];

    let ports = sort_ports(&ports);

    assert_eq!(ports[0].public, Some(443));
    assert_eq!(ports[1].public, Some(2222));
    assert_eq!(ports[2].public, Some(8080));
}

#[test]
fn test_port_sorting_none_public_ports_at_end() {
    let ports = vec![
        port(None, 3000, None),
        port(Some("0.0.0.0"), 80, Some(8080)),
        port(None, 5000, None),
        port(Some("0.0.0.0"), 443, Some(443)),
    ];

    let ports = sort_ports(&ports);

    assert_eq!(ports[0].public, Some(443));
    assert_eq!(ports[1].public, Some(8080));
    assert_eq!(ports[2].public, None);
    assert_eq!(ports[2].private, 3000);
    assert_eq!(ports[3].public, None);
    assert_eq!(ports[3].private, 5000);
}

#[test]
fn test_port_sorting_stability_same_public_port() {
    let ports = vec![
        port(Some("0.0.0.0"), 80, Some(8080)),
        port(Some("0.0.0.0"), 8080, Some(8080)),
        port(Some("0.0.0.0"), 443, Some(443)),
    ];

    let ports = sort_ports(&ports);

    assert_eq!(ports[0].public, Some(443));
    assert_eq!(ports[1].public, Some(8080));
    assert_eq!(ports[1].private, 80);
    assert_eq!(ports[2].public, Some(8080));
    assert_eq!(ports[2].private, 8080);
}

#[test]
fn test_port_sorting_large_port_numbers() {
    let ports = vec![
        port(Some("0.0.0.0"), 65535, Some(65535)),
        port(Some("0.0.0.0"), 1, Some(1)),
        port(Some("0.0.0.0"), 32768, Some(32768)),
    ];

    let ports = sort_ports(&ports);

    assert_eq!(ports[0].public, Some(1));
    assert_eq!(ports[1].public, Some(32768));
    assert_eq!(ports[2].public, Some(65535));
}

#[test]
fn test_port_sorting_empty_list() {
    let ports: Vec<ContainerPorts> = vec![];

    let ports = sort_ports(&ports);

    assert!(ports.is_empty());
}

#[test]
fn test_port_sorting_only_private_ports() {
    let ports = vec![port(None, 5000, None), port(None, 3000, None), port(None, 4000, None)];

    let ports = sort_ports(&ports);

    assert_eq!(ports[0].private, 3000);
    assert_eq!(ports[1].private, 4000);
    assert_eq!(ports[2].private, 5000);
}

#[test]
fn sort_keeps_every_port_and_its_ip() {
    let ports = vec![
        port(None, 7, None),
        port(Some("127.0.0.1"), 80, Some(80)),
        port(None, 7, None),
    ];
    let sorted = sort_ports(&ports);
    assert_eq!(sorted.len(), 3);
    assert_eq!(sorted[0].ip.as_deref(), Some("127.0.0.1"));
    assert_eq!(sorted[1].private, 7);
    assert_eq!(sorted[2].private, 7);
}

#[test]
fn port_max_lens_have_minimums() {
    assert_eq!(calculate_port_max_lens(&vec![]), (7, 0, 6));
    let ports = vec![
        port(Some("192.168.100.200"), 8080, Some(65535)),
        port(None, 22, None),
    ];
    assert_eq!(calculate_port_max_lens(&ports), (15, 4, 6));
    let wide = vec![port(Some("1.2.3.4"), 1, Some(1))];
    assert_eq!(calculate_port_max_lens(&wide), (7, 1, 6));
}

#[test]
fn container_title_forms() {
    assert_eq!(create_container_title(0, Some(3)), "Containers");
    assert_eq!(create_container_title(5, Some(1)), "Containers 2/5");
    assert_eq!(create_container_title(12, None), "Containers [12]");
}

#[test]
fn empty_frame_defaults() {
    let vm = oxker_tui::view_models::FrameViewModel::default();
    assert!(vm.containers.is_empty());
    assert_eq!(vm.log_height, 4);
    assert!(vm.show_logs);
    assert_eq!(vm.columns.name.1, 4);
    assert_eq!(vm.filter_by, oxker_tui::model::FilterBy::Name);
    assert!(!vm.status.contains(oxker_tui::gui_state::Status::Help));
}
