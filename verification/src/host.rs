//! Capability contexts: what a guest may reach from inside its sandbox.
//!
//! A context is a set of grants and a private resource table. The grants
//! are fixed when the context is made. Two contexts never share a table.

use vstd::prelude::*;

verus! {

#[verifier::external_type_specification]
#[verifier::external_body]
pub struct ExWasiCtx(wasmtime_wasi::WasiCtx);

#[verifier::external_type_specification]
#[verifier::external_body]
pub struct ExResourceTable(wasmtime_wasi::ResourceTable);

#[verifier::external_type_specification]
#[verifier::external_body]
pub struct ExDir(wasi_common::sync::Dir);

/// What a guest may do with directories, or with files.
#[derive(Debug, Clone, Copy, PartialEq, Eq, Structural)]
pub struct Access {
    /// Listing a directory; reading a file.
    pub read: bool,
    /// Creating, renaming and removing entries; writing a file.
    pub write: bool,
}

/// A directory tree opened to a guest.
pub struct Grant {
    /// The directory at the root of the tree.
    pub tree: wasi_common::sync::Dir,
    /// The name under which the guest sees the root of the tree.
    pub at: Seq<char>,
    /// What the guest may do with the directories of the tree.
    pub dirs: Access,
    /// What the guest may do with the files of the tree.
    pub files: Access,
}

/// The directories that the context was built with, in order: for each
/// the directory, the bits of its directory permissions, the bits of its
/// file permissions and the name that the guest sees it under.
pub uninterp spec fn preopens(ctx: wasmtime_wasi::WasiCtx) -> Seq<
    (wasi_common::sync::Dir, usize, usize, Seq<char>),
>;

/// Whether the context admits any use of the network: a socket address to
/// bind, to connect or to send to, or the lookup of a name.
pub uninterp spec fn network_open(ctx: wasmtime_wasi::WasiCtx) -> bool;

/// The keys of the resources that the table holds.
pub uninterp spec fn table_keys(table: wasmtime_wasi::ResourceTable) -> Set<u32>;

/// The permission bits that stand for `access`: 1 to read, 2 to write.
pub open spec fn bits_of(access: Access) -> usize {
    if access.read {
        if access.write {
            3
        } else {
            1
        }
    } else {
        if access.write {
            2
        } else {
            0
        }
    }
}

/// The access that permission bits stand for.
pub open spec fn access_of(bits: usize) -> Access {
    Access { read: bits == 1 || bits == 3, write: bits == 2 || bits == 3 }
}

impl Access {
    /// Access to read and not to write.
    pub open spec fn read_only() -> Access {
        Access { read: true, write: false }
    }

    /// Whether `self` allows nothing that `other` does not allow.
    pub open spec fn within(self, other: Access) -> bool {
        &&& self.read ==> other.read
        &&& self.write ==> other.write
    }

    /// The permission bits of this access.
    pub fn bits(self) -> (bits: usize)
        ensures
            bits == bits_of(self),
            bits < 4,
            access_of(bits) == self,
    {
        if self.read {
            if self.write {
                3
            } else {
                1
            }
        } else {
            if self.write {
                2
            } else {
                0
            }
        }
    }
}

/// A context with the defaults of the runtime and no directory.
///
/// Trusted: `WasiCtxBuilder::new` and `build`. A new builder has no
/// preopened directory, no arguments, no environment and closed standard
/// input; its check of socket addresses admits none and the lookup of
/// names is off.
#[verifier::external_body]
fn sealed_context() -> (ctx: wasmtime_wasi::WasiCtx)
    ensures
        preopens(ctx) == Seq::<(wasi_common::sync::Dir, usize, usize, Seq<char>)>::empty(),
        !network_open(ctx),
{
    wasmtime_wasi::WasiCtxBuilder::new().build()
}

/// A context with the defaults of the runtime and one directory, which the
/// guest sees under the name `at` with the given permissions.
///
/// Trusted: `WasiCtxBuilder::new`, `preopened_dir` and `build`, with
/// `DirPerms::from_bits_truncate` and `FilePerms::from_bits_truncate`, which
/// keep the two bits that they know. The builder keeps the directory that
/// it is given; what it starts with for the network, it is left with.
#[verifier::external_body]
fn rooted_context(root: wasi_common::sync::Dir, dirs: usize, files: usize, at: &str) -> (ctx:
    wasmtime_wasi::WasiCtx)
    requires
        dirs < 4,
        files < 4,
    ensures
        preopens(ctx) == seq![(root, dirs, files, at@)],
        !network_open(ctx),
{
    wasmtime_wasi::WasiCtxBuilder::new().preopened_dir(
        root,
        wasmtime_wasi::DirPerms::from_bits_truncate(dirs),
        wasmtime_wasi::FilePerms::from_bits_truncate(files),
        at,
    ).build()
}

/// An empty resource table.
///
/// Trusted: `ResourceTable::new`, which starts without entries.
#[verifier::external_body]
fn new_table() -> (table: wasmtime_wasi::ResourceTable)
    ensures
        table_keys(table) == Set::<u32>::empty(),
{
    wasmtime_wasi::ResourceTable::new()
}

/// The state that a sandbox keeps for its guests: the context that says
/// what they may reach, and the table of the resources they hold.
pub struct Host {
    ctx: wasmtime_wasi::WasiCtx,
    table: wasmtime_wasi::ResourceTable,
}

impl wasmtime_wasi::WasiView for Host {
    /// Lends out the table of resources. What the borrower leaves there is
    /// the table afterwards; the context is not touched.
    fn table(&mut self) -> (table: &mut wasmtime_wasi::ResourceTable)
        ensures
            *table == old(self).resources(),
            final(self).resources() == *final(table),
            final(self).context() == old(self).context(),
    {
        &mut self.table
    }

    /// Lends out the context. What the borrower leaves there is the
    /// context afterwards; the table of resources is not touched.
    fn ctx(&mut self) -> (ctx: &mut wasmtime_wasi::WasiCtx)
        ensures
            *ctx == old(self).context(),
            final(self).context() == *final(ctx),
            final(self).resources() == old(self).resources(),
    {
        &mut self.ctx
    }
}

/// The grants that a list of preopened directories stands for.
pub open spec fn grants_of(
    opened: Seq<(wasi_common::sync::Dir, usize, usize, Seq<char>)>,
) -> Seq<Grant> {
    Seq::new(
        opened.len(),
        |i: int|
            Grant {
                tree: opened[i].0,
                at: opened[i].3,
                dirs: access_of(opened[i].1),
                files: access_of(opened[i].2),
            },
    )
}

/// Whether every grant of `inner` is met by a grant of `outer` for the same
/// tree under the same name that allows at least as much.
pub open spec fn within(inner: Seq<Grant>, outer: Seq<Grant>) -> bool {
    forall|i: int|
        0 <= i < inner.len() ==> exists|j: int|
            0 <= j < outer.len() && outer[j].at == (#[trigger] inner[i]).at && outer[j].tree
                == inner[i].tree && inner[i].dirs.within(
                outer[j].dirs,
            ) && inner[i].files.within(outer[j].files)
}

/// Whether `inner` grants strictly less than `outer`.
pub open spec fn narrower(inner: Seq<Grant>, outer: Seq<Grant>) -> bool {
    within(inner, outer) && !within(outer, inner)
}

/// The grant of the tree under `tree`, which the guest sees as `/`.
pub open spec fn root_grant(tree: wasi_common::sync::Dir, dirs: Access, files: Access) -> Grant {
    Grant { tree, at: seq!['/'], dirs, files }
}

/// The grant of the loader: the tree under `tree` as `/`, to read.
pub open spec fn loader_grant(tree: wasi_common::sync::Dir) -> Grant {
    root_grant(tree, Access::read_only(), Access::read_only())
}

impl Host {
    /// The context, which says what guests may reach.
    pub closed spec fn context(&self) -> wasmtime_wasi::WasiCtx {
        self.ctx
    }

    /// The table of the resources that guests hold.
    pub closed spec fn resources(&self) -> wasmtime_wasi::ResourceTable {
        self.table
    }

    /// The directory trees that this context opens to its guests, with what
    /// it lets them do there. It opens nothing else to them.
    pub closed spec fn grants(&self) -> Seq<Grant> {
        grants_of(preopens(self.ctx))
    }

    /// Whether this context admits any use of the network.
    pub closed spec fn network(&self) -> bool {
        network_open(self.ctx)
    }

    /// The keys of the resources that guests hold.
    pub closed spec fn held(&self) -> Set<u32> {
        table_keys(self.table)
    }

    /// The context that commands run in: no directory is open to them and
    /// no use of the network is admitted. Its table of resources is new and
    /// empty.
    pub fn command() -> (host: Host)
        ensures
            host.grants() == Seq::<Grant>::empty(),
            !host.network(),
            host.held() == Set::<u32>::empty(),
    {
        let host = Host { ctx: sealed_context(), table: new_table() };
        proof {
            assert(host.grants() =~= Seq::empty());
        }
        host
    }

    /// A context to which the tree under `root` is open as `/`, with the
    /// given access to its directories and to its files, and nothing else:
    /// no other tree and no use of the network. Its table of resources is
    /// new and empty.
    pub fn rooted(root: wasi_common::sync::Dir, dirs: Access, files: Access) -> (host: Host)
        ensures
            host.grants() == seq![root_grant(root, dirs, files)],
            !host.network(),
            host.held() == Set::<u32>::empty(),
    {
        let at = "/";
        let ghost tree = root;
        proof {
            reveal_strlit("/");
            assert(at@ =~= seq!['/']);
        }
        let ctx = rooted_context(root, dirs.bits(), files.bits(), at);
        let host = Host { ctx, table: new_table() };
        proof {
            assert(host.grants() =~= seq![root_grant(tree, dirs, files)]);
        }
        host
    }

    /// The context that the loader runs in: it may read, and only read,
    /// the directories and files under `root`, which it sees as `/`. No
    /// use of the network is admitted. Its table of resources is new and
    /// empty.
    pub fn loader(root: wasi_common::sync::Dir) -> (host: Host)
        ensures
            host.grants() == seq![loader_grant(root)],
            !host.network(),
            host.held() == Set::<u32>::empty(),
    {
        let read_only = Access { read: true, write: false };
        Host::rooted(root, read_only, read_only)
    }
}

/// A context without directories is strictly narrower than the loader's.
pub proof fn lemma_command_is_narrower(tree: wasi_common::sync::Dir)
    ensures
        narrower(Seq::<Grant>::empty(), seq![loader_grant(tree)]),
{
    let outer = seq![loader_grant(tree)];
    assert(outer[0] == loader_grant(tree));
    assert(!within(outer, Seq::<Grant>::empty()));
}

} // verus!
