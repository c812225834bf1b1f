use zerofs::config::{NbdConfig, NfsConfig, NinePConfig, ServerConfig};
use zerofs::servers::{
    all_servers, start_nbd_servers, start_nfs_servers, start_ninep_servers, Server,
};

#[test]
fn absent_protocols_have_no_servers() {
    assert!(start_nfs_servers::<u16>(None).is_empty());
    assert!(start_ninep_servers::<u16>(None).is_empty());
    assert!(start_nbd_servers::<u16>(None).is_empty());
}

#[test]
fn nfs_has_one_server_for_each_address() {
    let config = NfsConfig {
        addresses: vec![2049u16, 2050],
    };
    assert_eq!(
        start_nfs_servers(Some(&config)),
        vec![
            Server::NfsTcp { address: 2049 },
            Server::NfsTcp { address: 2050 }
        ]
    );
}

#[test]
fn nfs_without_addresses_has_no_servers() {
    let config = NfsConfig::<u16> { addresses: vec![] };
    assert!(start_nfs_servers(Some(&config)).is_empty());
}

#[test]
fn ninep_lists_addresses_before_the_socket() {
    let config = NinePConfig {
        addresses: Some(vec![5564u16, 5565]),
        unix_socket: Some(b"/tmp/9p.sock".to_vec()),
    };
    assert_eq!(
        start_ninep_servers(Some(&config)),
        vec![
            Server::NinePTcp { address: 5564 },
            Server::NinePTcp { address: 5565 },
            Server::NinePUnix {
                path: b"/tmp/9p.sock".to_vec()
            },
        ]
    );
}

#[test]
fn ninep_on_a_socket_alone() {
    let config = NinePConfig::<u16> {
        addresses: None,
        unix_socket: Some(vec![0xff, 0x2f]),
    };
    assert_eq!(
        start_ninep_servers(Some(&config)),
        vec![Server::NinePUnix {
            path: vec![0xff, 0x2f]
        }]
    );
}

#[test]
fn nbd_lists_addresses_before_the_socket() {
    let config = NbdConfig {
        addresses: Some(vec![10809u16]),
        unix_socket: Some("/tmp/nbd.sock".to_string()),
    };
    assert_eq!(
        start_nbd_servers(Some(&config)),
        vec![
            Server::NbdTcp { address: 10809 },
            Server::NbdUnix {
                name: "/tmp/nbd.sock".to_string()
            },
        ]
    );
}

#[test]
fn nbd_configured_with_nothing_has_no_servers() {
    let config = NbdConfig::<u16> {
        addresses: None,
        unix_socket: None,
    };
    assert!(start_nbd_servers(Some(&config)).is_empty());
}

#[test]
fn servers_come_in_the_order_of_their_protocols() {
    let config = ServerConfig {
        nbd: Some(NbdConfig {
            addresses: Some(vec![3u16]),
            unix_socket: None,
        }),
        nfs: Some(NfsConfig {
            addresses: vec![1u16],
        }),
        ninep: Some(NinePConfig {
            addresses: None,
            unix_socket: Some(vec![2]),
        }),
    };
    assert_eq!(
        all_servers(&config),
        vec![
            Server::NfsTcp { address: 1 },
            Server::NinePUnix { path: vec![2] },
            Server::NbdTcp { address: 3 },
        ]
    );
}
