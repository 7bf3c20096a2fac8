//! The artifact model: components, their storage devices and the source
//! files those hold, together with the mathematical view of each.

use vstd::prelude::*;
use crate::text::text_view;

verus! {

/// What a source file is, as a pair of texts.
pub struct FileView {
    pub name: Seq<char>,
    pub content: Seq<char>,
}

/// What a storage device is.
pub struct DeviceView {
    pub capacity: i64,
    pub label: Seq<char>,
    pub files: Seq<FileView>,
}

/// What a component is: its alias if it has one, its raw identifier, its
/// storage device if it has one, and the list of components nested in it if
/// it carries such a list.
pub struct NodeView {
    pub alias: Option<Seq<char>>,
    pub module: Seq<char>,
    pub device: Option<DeviceView>,
    pub children: Option<Seq<NodeView>>,
}

/// The display name that an alias and a raw identifier give: the alias where
/// there is one and it is not empty, the raw identifier otherwise.
pub open spec fn display_name(alias: Option<Seq<char>>, module: Seq<char>) -> Seq<char> {
    match alias {
        Some(a) => if a.len() > 0 { a } else { module },
        None => module,
    }
}

impl NodeView {
    /// The display name of the component.
    pub open spec fn name(self) -> Seq<char> {
        display_name(self.alias, self.module)
    }

    /// The files of the component's own storage device, in the order in
    /// which the device lists them; none where it has no device.
    pub open spec fn files(self) -> Seq<FileView> {
        match self.device {
            Some(device) => device.files,
            None => Seq::empty(),
        }
    }

    /// The components nested directly in the component, in their order; none
    /// where it carries no list of them.
    pub open spec fn kids(self) -> Seq<NodeView> {
        match self.children {
            Some(children) => children,
            None => Seq::empty(),
        }
    }
}

/// One source file held by a storage device.
#[derive(Debug)]
pub struct XcFile {
    pub name: String,
    pub plain_code: String,
}

impl View for XcFile {
    type V = FileView;

    open spec fn view(&self) -> FileView {
        FileView { name: self.name@, content: self.plain_code@ }
    }
}

/// The files of a list of source files, each by its view.
pub open spec fn file_views(files: Seq<XcFile>) -> Seq<FileView> {
    files.map_values(|f: XcFile| f@)
}

/// A storage device: a labelled drive with an ordered list of source files.
#[derive(Debug)]
pub struct Hdd {
    pub capacity: i64,
    pub label: String,
    pub xc_files: Vec<XcFile>,
}

impl View for Hdd {
    type V = DeviceView;

    open spec fn view(&self) -> DeviceView {
        DeviceView {
            capacity: self.capacity,
            label: self.label@,
            files: file_views(self.xc_files@),
        }
    }
}

/// The payload of a component, as far as extraction reads it.
#[derive(Debug)]
pub struct ComponentData {
    pub hdd: Option<Hdd>,
    pub components: Option<Vec<Component>>,
}

/// A node of the blueprint tree.
#[derive(Debug)]
pub struct Component {
    pub alias: Option<String>,
    pub module: String,
    pub data: ComponentData,
}

impl Component {
    /// The component as a node of the mathematical tree, with everything it
    /// holds: alias, raw identifier, device and nested components.
    pub open spec fn view(&self) -> NodeView
        decreases self,
    {
        NodeView {
            alias: text_view(self.alias),
            module: self.module@,
            device: match self.data.hdd {
                Some(hdd) => Some(hdd@),
                None => None,
            },
            children: match self.data.components {
                Some(v) => Some(
                    Seq::new(
                        v@.len(),
                        |i: int|
                            if 0 <= i < v@.len() {
                                v@[i].view()
                            } else {
                                arbitrary()
                            },
                    ),
                ),
                None => None,
            },
        }
    }
}

/// The components of a list, each by its view.
pub open spec fn node_views(components: Seq<Component>) -> Seq<NodeView> {
    Seq::new(components.len(), |i: int| components[i]@)
}

/// The part of a blueprint that holds its component tree.
#[derive(Debug)]
pub struct RootData {
    pub components: Vec<Component>,
}

/// A blueprint, as far as extraction and packaging read it.
#[derive(Debug)]
pub struct Blueprint {
    pub author: String,
    pub data: RootData,
    pub version: i64,
}

impl Blueprint {
    /// The top-level components of the blueprint, each by its view.
    pub open spec fn roots(&self) -> Seq<NodeView> {
        node_views(self.data.components@)
    }
}

/// The components that hold a storage device, among a list of siblings and
/// all that is nested in them, in traversal order: each such component
/// once, before those nested in it and after its elder siblings and what is
/// nested in those.
pub open spec fn devices_in(nodes: Seq<NodeView>) -> Seq<NodeView>
    decreases nodes,
{
    if nodes.len() == 0 {
        Seq::empty()
    } else {
        devices_in(nodes.drop_last()) + devices_at(nodes.last())
    }
}

/// The components that hold a storage device, among a component and all
/// that is nested in it: the component itself first if it holds one.
pub open spec fn devices_at(node: NodeView) -> Seq<NodeView>
    decreases node,
{
    (if node.device is Some {
        seq![node]
    } else {
        Seq::empty()
    }) + (match node.children {
        Some(children) => devices_in(children),
        None => Seq::empty(),
    })
}

impl Clone for XcFile {
    fn clone(&self) -> (r: XcFile)
        ensures
            r@ == self@,
    {
        XcFile { name: self.name.clone(), plain_code: self.plain_code.clone() }
    }
}

impl Clone for Hdd {
    fn clone(&self) -> (r: Hdd)
        ensures
            r@ == self@,
    {
        Hdd { capacity: self.capacity, label: self.label.clone(), xc_files: self.xc_files() }
    }
}

impl Clone for Component {
    /// A copy of the component with everything nested in it: alias, raw
    /// identifier, device and children are those of the component.
    fn clone(&self) -> (r: Component)
        ensures
            r@ == self@,
        decreases self,
    {
        let alias = match &self.alias {
            Some(a) => Some(a.clone()),
            None => None,
        };
        let hdd = match &self.data.hdd {
            Some(hdd) => Some(hdd.clone()),
            None => None,
        };
        let components = match &self.data.components {
            Some(children) => Some(copy_components(children)),
            None => None,
        };
        let r = Component {
            alias,
            module: self.module.clone(),
            data: ComponentData { hdd, components },
        };
        proof {
            if self.data.components is Some {
                assert(r@.children->0 =~= node_views(r.data.components->0@));
                assert(self@.children->0 =~= node_views(self.data.components->0@));
            }
        }
        r
    }
}

/// Copies of the components of a list, in its order.
fn copy_components(components: &Vec<Component>) -> (r: Vec<Component>)
    ensures
        node_views(r@) == node_views(components@),
    decreases components,
{
    let mut r: Vec<Component> = Vec::new();
    let mut i: usize = 0;
    while i < components.len()
        invariant
            i <= components.len(),
            r@.len() == i,
            forall|j: int| 0 <= j < i ==> r@[j]@ == components@[j]@,
        decreases components.len() - i,
    {
        r.push(components[i].clone());
        i += 1;
    }
    r
}

/// Appends to `out` a copy of every component that holds a storage device,
/// among `components` and all that is nested in them, in traversal order.
fn collect_devices(components: &Vec<Component>, out: &mut Vec<Component>)
    ensures
        node_views(final(out)@) == node_views(old(out)@) + devices_in(node_views(components@)),
    decreases components,
{
    let ghost before = node_views(out@);
    let ghost nodes = node_views(components@);
    let mut i: usize = 0;
    while i < components.len()
        invariant
            i <= components.len(),
            nodes == node_views(components@),
            node_views(out@) == before + devices_in(nodes.take(i as int)),
        decreases components.len() - i,
    {
        let c = &components[i];
        let ghost sofar = node_views(out@);
        let ghost own = if c@.device is Some {
            seq![c@]
        } else {
            Seq::empty()
        };
        let ghost nested = match c@.children {
            Some(children) => devices_in(children),
            None => Seq::empty(),
        };
        assert(nodes.take(i as int + 1).drop_last() =~= nodes.take(i as int));
        if c.has_data_storage() {
            out.push(c.clone());
        }
        assert(node_views(out@) =~= sofar + own);
        if let Some(children) = &c.data.components {
            assert(c@.children->0 =~= node_views(children@));
            collect_devices(children, out);
        }
        assert(devices_at(c@) == own + nested);
        i += 1;
    }
    assert(nodes.take(i as int) =~= nodes);
}

impl Blueprint {
    /// Copies of the components that hold a storage device, at whatever
    /// depth, in traversal order: each such component once, with all that
    /// is nested in it.
    pub fn components_with_hdd(&self) -> (r: Vec<Component>)
        ensures
            node_views(r@) == devices_in(self.roots()),
    {
        let mut r: Vec<Component> = Vec::new();
        collect_devices(&self.data.components, &mut r);
        r
    }
}

impl Hdd {
    /// A copy of the files on the device, in the order in which it lists them.
    pub fn xc_files(&self) -> (r: Vec<XcFile>)
        ensures
            file_views(r@) == file_views(self.xc_files@),
    {
        let mut r: Vec<XcFile> = Vec::new();
        let mut i: usize = 0;
        while i < self.xc_files.len()
            invariant
                i <= self.xc_files.len(),
                r@.len() == i,
                forall|j: int| 0 <= j < i ==> r@[j]@ == self.xc_files@[j]@,
            decreases self.xc_files.len() - i,
        {
            r.push(self.xc_files[i].clone());
            i += 1;
        }
        r
    }
}

impl Component {
    /// The display name of the component: its alias where it has one that is
    /// not empty, its raw identifier otherwise.
    pub fn name(&self) -> (r: String)
        ensures
            r@ == self@.name(),
            self.alias is None ==> r@ == self.module@,
            self.alias matches Some(a) ==> r@ == (if a@.len() == 0 { self.module@ } else { a@ }),
    {
        match &self.alias {
            Some(a) => {
                if a.as_str().is_empty() {
                    self.module.clone()
                } else {
                    a.clone()
                }
            },
            None => self.module.clone(),
        }
    }

    /// Whether the component itself holds a storage device.
    pub fn has_data_storage(&self) -> (r: bool)
        ensures
            r == self@.device.is_some(),
    {
        self.data.has_hdd()
    }
}

impl ComponentData {
    /// Whether the payload holds a storage device.
    pub fn has_hdd(&self) -> (r: bool)
        ensures
            r == self.hdd.is_some(),
    {
        self.hdd.is_some()
    }
}

} // verus!
