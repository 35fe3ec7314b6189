//! What a node publishes about itself, and where.

use crate::file_name::{file_name_bytes, file_name_new, is_ascii_bytes, is_file_name};
use crate::node_id::NodeId;
use iceoryx2_bb_system_types::file_name::FileName;
use vstd::pervasive::unreached;
use vstd::prelude::*;

verus! {

/// The separator between the parts of a path.
pub const PATH_SEPARATOR: u8 = 0x2f;

/// The name of the directory of registrations below the root.
pub open spec fn monitoring_directory_name() -> Seq<u8> {
    seq![0x6du8, 0x6f, 0x6e, 0x69, 0x74, 0x6f, 0x72, 0x69, 0x6e, 0x67]
}

/// The name of the directory of the nodes' details below the root.
pub open spec fn nodes_directory_name() -> Seq<u8> {
    seq![0x6eu8, 0x6f, 0x64, 0x65, 0x73]
}

/// The name of the artifact that holds a node's details.
pub open spec fn details_artifact_name() -> Seq<u8> {
    seq![0x6eu8, 0x6f, 0x64, 0x65]
}

/// The label that a user gave a node. It need not be unique and may be
/// empty.
#[derive(Debug)]
pub struct NodeName {
    value: String,
}

impl View for NodeName {
    type V = Seq<char>;

    closed spec fn view(&self) -> Seq<char> {
        self.value@
    }
}

impl Clone for NodeName {
    fn clone(&self) -> (copy: Self)
        ensures
            copy == *self,
    {
        NodeName { value: self.value.clone() }
    }
}

impl NodeName {
    /// A name with the given text.
    pub fn new(name: &str) -> (node_name: NodeName)
        ensures
            node_name@ == name@,
    {
        NodeName { value: name.to_owned() }
    }

    /// The name that a node has when none was chosen for it.
    pub fn empty() -> (node_name: NodeName)
        ensures
            node_name@ == Seq::<char>::empty(),
    {
        NodeName { value: String::new() }
    }

    /// The text of the name.
    pub fn as_str(&self) -> (text: &str)
        ensures
            text@ == self@,
    {
        self.value.as_str()
    }
}

/// The configuration of a fabric, as far as the nodes' layout reads it:
/// the root below which the fabric keeps its registrations.
#[derive(Debug)]
pub struct Config {
    root: Vec<u8>,
}

impl View for Config {
    type V = Seq<u8>;

    /// The root path of the fabric.
    closed spec fn view(&self) -> Seq<u8> {
        self.root@
    }
}

impl Clone for Config {
    fn clone(&self) -> (copy: Self)
        ensures
            copy@ == self@,
    {
        let mut root: Vec<u8> = Vec::new();
        let mut i: usize = 0;
        while i < self.root.len()
            invariant
                i <= self.root.len(),
                root@ == self.root@.subrange(0, i as int),
            decreases self.root.len() - i,
        {
            root.push(self.root[i]);
            assert(root@ =~= self.root@.subrange(0, i + 1));
            i = i + 1;
        }
        assert(root@ =~= self.root@);
        Config { root }
    }
}

/// The directory of registrations below `root`.
pub open spec fn monitoring_path(root: Seq<u8>) -> Seq<u8> {
    root.push(PATH_SEPARATOR) + monitoring_directory_name()
}

/// The directory below `root` in which the node registered as `node`
/// keeps its details.
pub open spec fn details_path(root: Seq<u8>, node: Seq<u8>) -> Seq<u8> {
    (root.push(PATH_SEPARATOR) + nodes_directory_name()).push(PATH_SEPARATOR) + node
}

fn append(path: &mut Vec<u8>, part: &Vec<u8>)
    ensures
        final(path)@ == old(path)@ + part@,
{
    let mut i: usize = 0;
    while i < part.len()
        invariant
            i <= part.len(),
            path@ == old(path)@ + part@.subrange(0, i as int),
        decreases part.len() - i,
    {
        path.push(part[i]);
        assert(path@ =~= old(path)@ + part@.subrange(0, i + 1));
        i = i + 1;
    }
    assert(part@.subrange(0, i as int) =~= part@);
}

impl Config {
    /// The configuration of the fabric rooted at `root`.
    pub fn new(root: Vec<u8>) -> (config: Config)
        ensures
            config@ == root@,
    {
        Config { root }
    }

    /// The root path of the fabric.
    pub fn root(&self) -> (root: &Vec<u8>)
        ensures
            root@ == self@,
    {
        &self.root
    }

    /// The directory in which the fabric's nodes are registered.
    pub fn node_monitoring_path(&self) -> (path: Vec<u8>)
        ensures
            path@ == monitoring_path(self@),
    {
        let mut path = self.clone().root;
        path.push(PATH_SEPARATOR);
        let name: Vec<u8> = vec![0x6du8, 0x6f, 0x6e, 0x69, 0x74, 0x6f, 0x72, 0x69, 0x6e, 0x67];
        assert(name@ =~= monitoring_directory_name());
        append(&mut path, &name);
        path
    }

    /// The directory in which the node `node_id` keeps its details.
    pub fn node_details_path(&self, node_id: &NodeId) -> (path: Vec<u8>)
        ensures
            path@ == details_path(self@, node_id.spec_file_name()),
    {
        let mut path = self.clone().root;
        path.push(PATH_SEPARATOR);
        let name: Vec<u8> = vec![0x6eu8, 0x6f, 0x64, 0x65, 0x73];
        assert(name@ =~= nodes_directory_name());
        append(&mut path, &name);
        path.push(PATH_SEPARATOR);
        let node = node_id.file_name();
        append(&mut path, &node);
        path
    }
}

/// The file name of the artifact that holds a node's details.
pub fn details_artifact() -> (name: FileName)
    ensures
        file_name_bytes(name) == details_artifact_name(),
{
    let bytes: Vec<u8> = vec![0x6eu8, 0x6f, 0x64, 0x65];
    assert(bytes@ =~= details_artifact_name());
    assert(is_ascii_bytes(bytes@) && is_file_name(bytes@));
    match file_name_new(bytes.as_slice()) {
        Ok(name) => name,
        Err(_) => unreached(),
    }
}

/// Whether a handle that creates or opens the artifact of a node's
/// details owns it. None does: the artifact belongs to the fabric, stays
/// when the handle goes, and leaves only when the node is cleaned up.
pub fn details_storage_has_ownership() -> (owned: bool)
    ensures
        !owned,
{
    false
}

/// Nodes with different registrations keep their details in different
/// directories of one fabric.
pub proof fn lemma_details_paths_differ(root: Seq<u8>, a: Seq<u8>, b: Seq<u8>)
    requires
        details_path(root, a) == details_path(root, b),
    ensures
        a == b,
{
    let prefix = (root.push(PATH_SEPARATOR) + nodes_directory_name()).push(PATH_SEPARATOR);
    assert(a =~= (prefix + a).subrange(prefix.len() as int, (prefix + a).len() as int));
    assert(b =~= (prefix + b).subrange(prefix.len() as int, (prefix + b).len() as int));
}

/// What a node publishes about itself when it is created. It does not
/// change afterwards.
#[derive(Debug)]
pub struct NodeDetails {
    name: NodeName,
    config: Config,
}

/// The published details as plain values.
pub struct NodeDetailsView {
    pub name: Seq<char>,
    pub config: Seq<u8>,
}

impl View for NodeDetails {
    type V = NodeDetailsView;

    closed spec fn view(&self) -> NodeDetailsView {
        NodeDetailsView { name: self.name@, config: self.config@ }
    }
}

impl Clone for NodeDetails {
    fn clone(&self) -> (copy: Self)
        ensures
            copy@ == self@,
    {
        NodeDetails { name: self.name.clone(), config: self.config.clone() }
    }
}

impl NodeDetails {
    /// The details of a node called `name` in the fabric of `config`.
    pub fn new(name: NodeName, config: Config) -> (details: NodeDetails)
        ensures
            details@.name == name@,
            details@.config == config@,
    {
        NodeDetails { name, config }
    }

    /// The node's name. Several nodes may have the same.
    pub fn name(&self) -> (name: &NodeName)
        ensures
            name@ == self@.name,
    {
        &self.name
    }

    /// The configuration with which the node creates its entities.
    pub fn config(&self) -> (config: &Config)
        ensures
            config@ == self@.config,
    {
        &self.config
    }
}

} // verus!
