//! The servers that a configuration asks for.

use vstd::prelude::*;

use crate::config::{NbdConfig, NfsConfig, NinePConfig, ServerConfig};

verus! {

/// A server to start, and where it listens.
#[derive(Debug, PartialEq, Eq)]
pub enum Server<A> {
    NfsTcp { address: A },
    NinePTcp { address: A },
    NinePUnix { path: Vec<u8> },
    NbdTcp { address: A },
    NbdUnix { name: String },
}

/// A [`Server`] with its path as a sequence.
pub enum ServerView<A> {
    NfsTcp { address: A },
    NinePTcp { address: A },
    NinePUnix { path: Seq<u8> },
    NbdTcp { address: A },
    NbdUnix { name: Seq<char> },
}

impl<A> View for Server<A> {
    type V = ServerView<A>;

    open spec fn view(&self) -> ServerView<A> {
        match *self {
            Server::NfsTcp { address } => ServerView::NfsTcp { address },
            Server::NinePTcp { address } => ServerView::NinePTcp { address },
            Server::NinePUnix { path } => ServerView::NinePUnix { path: path@ },
            Server::NbdTcp { address } => ServerView::NbdTcp { address },
            Server::NbdUnix { name } => ServerView::NbdUnix { name: name@ },
        }
    }
}

/// The views of servers, in order.
pub open spec fn server_views<A>(servers: Seq<Server<A>>) -> Seq<ServerView<A>> {
    servers.map_values(|server: Server<A>| server@)
}

/// The configured addresses, in order; none where there is no list.
pub open spec fn addresses_of<A>(addresses: Option<Vec<A>>) -> Seq<A> {
    match addresses {
        Some(list) => list@,
        None => Seq::empty(),
    }
}

/// What is in an option, as a sequence of no more than one element.
pub open spec fn zero_or_one<T>(value: Option<T>) -> Seq<T> {
    match value {
        Some(inner) => seq![inner],
        None => Seq::empty(),
    }
}

/// The NFS servers of a configuration: one for each address.
pub open spec fn nfs_servers<A>(config: Option<NfsConfig<A>>) -> Seq<ServerView<A>> {
    match config {
        Some(c) => c.addresses@.map_values(|address: A| ServerView::NfsTcp { address }),
        None => Seq::empty(),
    }
}

/// The 9P servers of a configuration: one for each address, then that on the
/// Unix socket.
pub open spec fn ninep_servers<A>(config: Option<NinePConfig<A>>) -> Seq<ServerView<A>> {
    match config {
        Some(c) => addresses_of(c.addresses).map_values(
            |address: A| ServerView::NinePTcp { address },
        ) + zero_or_one(c.unix_socket).map_values(
            |path: Vec<u8>| ServerView::NinePUnix { path: path@ },
        ),
        None => Seq::empty(),
    }
}

/// The NBD servers of a configuration: one for each address, then that on the
/// Unix socket.
pub open spec fn nbd_servers<A>(config: Option<NbdConfig<A>>) -> Seq<ServerView<A>> {
    match config {
        Some(c) => addresses_of(c.addresses).map_values(
            |address: A| ServerView::NbdTcp { address },
        ) + zero_or_one(c.unix_socket).map_values(
            |name: String| ServerView::NbdUnix { name: name@ },
        ),
        None => Seq::empty(),
    }
}

/// All servers of a configuration: NFS, then 9P, then NBD.
pub open spec fn configured_servers<A>(config: ServerConfig<A>) -> Seq<ServerView<A>> {
    nfs_servers(config.nfs) + ninep_servers(config.ninep) + nbd_servers(config.nbd)
}

/// What an option of a reference refers to.
pub open spec fn referent<T>(value: Option<&T>) -> Option<T> {
    match value {
        Some(inner) => Some(*inner),
        None => None,
    }
}

/// The NFS servers to start.
pub fn start_nfs_servers<A: Copy>(config: Option<&NfsConfig<A>>) -> (servers: Vec<Server<A>>)
    ensures
        server_views(servers@) == nfs_servers(referent(config)),
        servers@.len() == (match config {
            Some(c) => c.addresses@.len(),
            None => 0,
        }),
        config matches Some(c) ==> forall|i: int|
            0 <= i < c.addresses@.len() ==> servers@[i] == (Server::NfsTcp {
                address: #[trigger] c.addresses@[i],
            }),
{
    let mut servers: Vec<Server<A>> = Vec::new();
    if let Some(config) = config {
        let addresses = &config.addresses;
        for i in 0..addresses.len()
            invariant
                servers@.len() == i,
                forall|k: int|
                    0 <= k < i ==> (#[trigger] servers@[k])@ == (ServerView::NfsTcp {
                        address: addresses@[k],
                    }),
        {
            servers.push(Server::NfsTcp { address: addresses[i] });
        }
    }
    assert(server_views(servers@) =~= nfs_servers(referent(config)));
    servers
}

/// The 9P servers to start.
pub fn start_ninep_servers<A: Copy>(config: Option<&NinePConfig<A>>) -> (servers: Vec<Server<A>>)
    ensures
        server_views(servers@) == ninep_servers(referent(config)),
        config is None ==> servers@.len() == 0,
        config matches Some(c) ==> {
            let count = match c.addresses {
                Some(list) => list@.len() as int,
                None => 0,
            };
            &&& c.addresses matches Some(list) ==> forall|i: int|
                0 <= i < list@.len() ==> servers@[i] == (Server::NinePTcp {
                    address: #[trigger] list@[i],
                })
            &&& match c.unix_socket {
                Some(socket) => servers@.len() == count + 1 && (servers@[count] matches Server::NinePUnix {
                    path,
                } && path@ == socket@),
                None => servers@.len() == count,
            }
        },
{
    let mut servers: Vec<Server<A>> = Vec::new();
    if let Some(config) = config {
        let ghost tcp = |address: A| ServerView::NinePTcp { address };
        if let Some(addresses) = &config.addresses {
            for i in 0..addresses.len()
                invariant
                    servers@.len() == i,
                    forall|k: int|
                        0 <= k < i ==> (#[trigger] servers@[k])@ == (ServerView::NinePTcp {
                            address: addresses@[k],
                        }),
            {
                servers.push(Server::NinePTcp { address: addresses[i] });
            }
        }
        assert(server_views(servers@) =~= addresses_of(config.addresses).map_values(tcp));
        if let Some(socket_path) = &config.unix_socket {
            servers.push(Server::NinePUnix { path: socket_path.clone() });
        }
        assert(server_views(servers@) =~= ninep_servers(Some(*config)));
    }
    servers
}

/// The NBD servers to start.
pub fn start_nbd_servers<A: Copy>(config: Option<&NbdConfig<A>>) -> (servers: Vec<Server<A>>)
    ensures
        server_views(servers@) == nbd_servers(referent(config)),
        config is None ==> servers@.len() == 0,
        config matches Some(c) ==> {
            let count = match c.addresses {
                Some(list) => list@.len() as int,
                None => 0,
            };
            &&& c.addresses matches Some(list) ==> forall|i: int|
                0 <= i < list@.len() ==> servers@[i] == (Server::NbdTcp {
                    address: #[trigger] list@[i],
                })
            &&& match c.unix_socket {
                Some(socket) => servers@.len() == count + 1 && (servers@[count] matches Server::NbdUnix {
                    name,
                } && name@ == socket@),
                None => servers@.len() == count,
            }
        },
{
    let mut servers: Vec<Server<A>> = Vec::new();
    if let Some(config) = config {
        let ghost tcp = |address: A| ServerView::NbdTcp { address };
        if let Some(addresses) = &config.addresses {
            for i in 0..addresses.len()
                invariant
                    servers@.len() == i,
                    forall|k: int|
                        0 <= k < i ==> (#[trigger] servers@[k])@ == (ServerView::NbdTcp {
                            address: addresses@[k],
                        }),
            {
                servers.push(Server::NbdTcp { address: addresses[i] });
            }
        }
        assert(server_views(servers@) =~= addresses_of(config.addresses).map_values(tcp));
        if let Some(socket_path) = &config.unix_socket {
            servers.push(Server::NbdUnix { name: socket_path.clone() });
        }
        assert(server_views(servers@) =~= nbd_servers(Some(*config)));
    }
    servers
}

/// All servers to start, in the order in which they are started.
pub fn all_servers<A: Copy>(config: &ServerConfig<A>) -> (servers: Vec<Server<A>>)
    ensures
        server_views(servers@) == configured_servers(*config),
{
    let mut servers = start_nfs_servers(config.nfs.as_ref());
    let mut ninep = start_ninep_servers(config.ninep.as_ref());
    let mut nbd = start_nbd_servers(config.nbd.as_ref());
    servers.append(&mut ninep);
    servers.append(&mut nbd);
    assert(server_views(servers@) =~= configured_servers(*config));
    servers
}

/// How many addresses and sockets a configuration names.
pub open spec fn endpoint_count<A>(config: ServerConfig<A>) -> nat {
    let nfs = match config.nfs {
        Some(c) => c.addresses@.len(),
        None => 0,
    };
    let ninep = match config.ninep {
        Some(c) => addresses_of(c.addresses).len() + zero_or_one(c.unix_socket).len(),
        None => 0,
    };
    let nbd = match config.nbd {
        Some(c) => addresses_of(c.addresses).len() + zero_or_one(c.unix_socket).len(),
        None => 0,
    };
    nfs + ninep + nbd
}

/// A configuration has as many servers as it names addresses and sockets.
pub proof fn as_many_servers_as_endpoints<A>(config: ServerConfig<A>)
    ensures
        configured_servers(config).len() == endpoint_count(config),
{
}

/// What is seen of a server is its protocol, and its address or the whole path of its
/// socket.
pub proof fn server_shows_all_it_holds<A>(servers: Seq<Server<A>>)
    ensures
        server_views(servers).len() == servers.len(),
        forall|i: int| 0 <= i < servers.len() ==> match #[trigger] servers[i] {
            Server::NfsTcp { address } => server_views(servers)[i] == (ServerView::NfsTcp {
                address,
            }),
            Server::NinePTcp { address } => server_views(servers)[i] == (ServerView::NinePTcp {
                address,
            }),
            Server::NinePUnix { path } => server_views(servers)[i] == (ServerView::<A>::NinePUnix {
                path: path@,
            }),
            Server::NbdTcp { address } => server_views(servers)[i] == (ServerView::NbdTcp {
                address,
            }),
            Server::NbdUnix { name } => server_views(servers)[i] == (ServerView::<A>::NbdUnix {
                name: name@,
            }),
        },
{
}

/// There is a server on every configured address and on every configured socket, at
/// its place: NFS by its addresses, then 9P by its addresses and then on its socket,
/// then NBD in the same way, and nothing else.
pub proof fn every_address_and_socket_is_served_at_its_place<A>(config: ServerConfig<A>)
    ensures
        ({
            let servers = configured_servers(config);
            let nfs = match config.nfs {
                Some(c) => c.addresses@.len() as int,
                None => 0,
            };
            let ninep_tcp = match config.ninep {
                Some(NinePConfig { addresses: Some(list), .. }) => list@.len() as int,
                _ => 0,
            };
            let ninep_unix = match config.ninep {
                Some(NinePConfig { unix_socket: Some(_), .. }) => 1int,
                _ => 0,
            };
            let nbd_tcp = match config.nbd {
                Some(NbdConfig { addresses: Some(list), .. }) => list@.len() as int,
                _ => 0,
            };
            let nbd_unix = match config.nbd {
                Some(NbdConfig { unix_socket: Some(_), .. }) => 1int,
                _ => 0,
            };
            let nbd = nfs + ninep_tcp + ninep_unix;
            &&& servers.len() == nbd + nbd_tcp + nbd_unix
            &&& config.nfs matches Some(c) ==> forall|i: int|
                0 <= i < c.addresses@.len() ==> servers[i] == (ServerView::NfsTcp {
                    address: #[trigger] c.addresses@[i],
                })
            &&& config.ninep matches Some(c) ==> {
                &&& c.addresses matches Some(list) ==> forall|i: int|
                    0 <= i < list@.len() ==> servers[nfs + i] == (ServerView::NinePTcp {
                        address: #[trigger] list@[i],
                    })
                &&& c.unix_socket matches Some(socket) ==> servers[nfs + ninep_tcp] == (ServerView::<
                    A,
                >::NinePUnix { path: socket@ })
            }
            &&& config.nbd matches Some(c) ==> {
                &&& c.addresses matches Some(list) ==> forall|i: int|
                    0 <= i < list@.len() ==> servers[nbd + i] == (ServerView::NbdTcp {
                        address: #[trigger] list@[i],
                    })
                &&& c.unix_socket matches Some(socket) ==> servers[nbd + nbd_tcp] == (ServerView::<
                    A,
                >::NbdUnix { name: socket@ })
            }
        }),
{
}

} // verus!
