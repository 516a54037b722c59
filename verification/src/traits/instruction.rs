//! Semantic annotations of a decoded instruction.

use crate::text::str_eq;
use vstd::prelude::*;

verus! {

/// What every annotation exposes, as mathematical values.
pub struct DetailView {
    pub architecture: Seq<char>,
    pub registers_read: Seq<u32>,
    pub registers_written: Seq<u32>,
}

/// Architecture-specific annotation of an instruction.
///
/// Register identifiers are integers that only mean something together
/// with the architecture's name. The three `spec_` functions say what the
/// three methods return; an implementation defines them along with the
/// methods, and where it leaves them as they are here, nothing is known of
/// their values.
pub trait Detail: Send + Sync {
    /// The architecture's name, as a value.
    open spec fn spec_architecture_name(&self) -> Seq<char> {
        arbitrary()
    }

    /// The registers read, in order, as a value.
    open spec fn spec_registers_read(&self) -> Seq<u32> {
        arbitrary()
    }

    /// The registers written, in order, as a value.
    open spec fn spec_registers_written(&self) -> Seq<u32> {
        arbitrary()
    }

    /// The name of the architecture that produced this annotation.
    fn architecture_name(&self) -> (name: &'static str)
        ensures
            name@ == self.spec_architecture_name(),
    ;

    /// The registers that the instruction reads, in order.
    fn registers_read(&self) -> (regs: &[u32])
        ensures
            regs@ == self.spec_registers_read(),
    ;

    /// The registers that the instruction writes, in order.
    fn registers_written(&self) -> (regs: &[u32])
        ensures
            regs@ == self.spec_registers_written(),
    ;
}

/// `index` is the first place among `pairs` that holds `key`.
pub open spec fn first_with_key(
    pairs: Seq<(Seq<char>, Seq<char>)>,
    key: Seq<char>,
    index: int,
) -> bool {
    &&& 0 <= index < pairs.len()
    &&& pairs[index].0 == key
    &&& forall|j: int| 0 <= j < index ==> (#[trigger] pairs[j]).0 != key
}

/// A general-purpose annotation: registers, free-form group tags and
/// string properties.
///
/// `properties` is a mapping: the builders keep each key at most once
/// (see [`BasicInstructionDetail::wf`]), and the pairs stay in the order
/// in which their keys were first set.
#[derive(Debug, Clone)]
pub struct BasicInstructionDetail {
    pub architecture: &'static str,
    pub regs_read: Vec<u32>,
    pub regs_write: Vec<u32>,
    pub groups: Vec<String>,
    pub properties: Vec<(String, String)>,
}

impl BasicInstructionDetail {
    /// The group tags as texts, in order.
    pub open spec fn group_texts(&self) -> Seq<Seq<char>> {
        self.groups@.map_values(|g: String| g@)
    }

    /// The properties as pairs of texts, in order.
    pub open spec fn property_texts(&self) -> Seq<(Seq<char>, Seq<char>)> {
        self.properties@.map_values(|p: (String, String)| (p.0@, p.1@))
    }

    /// No key occurs twice among the properties.
    pub open spec fn wf(&self) -> bool {
        forall|i: int, j: int|
            0 <= i < j < self.property_texts().len() ==> self.property_texts()[i].0
                != self.property_texts()[j].0
    }

    /// An annotation for `architecture` with no registers, groups or
    /// properties.
    pub fn new(architecture: &'static str) -> (detail: Self)
        ensures
            detail.architecture == architecture,
            detail.regs_read@ == Seq::<u32>::empty(),
            detail.regs_write@ == Seq::<u32>::empty(),
            detail.group_texts() == Seq::<Seq<char>>::empty(),
            detail.property_texts() == Seq::<(Seq<char>, Seq<char>)>::empty(),
            detail.wf(),
    {
        let detail = Self {
            architecture,
            regs_read: Vec::new(),
            regs_write: Vec::new(),
            groups: Vec::new(),
            properties: Vec::new(),
        };
        assert(detail.group_texts() =~= Seq::<Seq<char>>::empty());
        assert(detail.property_texts() =~= Seq::<(Seq<char>, Seq<char>)>::empty());
        detail
    }

    /// Records `reg` as read, after the registers already recorded.
    pub fn reads_register(self, reg: u32) -> (detail: Self)
        ensures
            detail.regs_read@ == self.regs_read@.push(reg),
            detail.architecture == self.architecture,
            detail.regs_write == self.regs_write,
            detail.groups == self.groups,
            detail.properties == self.properties,
    {
        let mut detail = self;
        detail.regs_read.push(reg);
        detail
    }

    /// Records `reg` as written, after the registers already recorded.
    pub fn writes_register(self, reg: u32) -> (detail: Self)
        ensures
            detail.regs_write@ == self.regs_write@.push(reg),
            detail.architecture == self.architecture,
            detail.regs_read == self.regs_read,
            detail.groups == self.groups,
            detail.properties == self.properties,
    {
        let mut detail = self;
        detail.regs_write.push(reg);
        detail
    }

    /// Adds the tag `group` after the tags already there; nothing is
    /// deduplicated.
    pub fn with_group(self, group: &str) -> (detail: Self)
        ensures
            detail.group_texts() == self.group_texts().push(group@),
            detail.architecture == self.architecture,
            detail.regs_read == self.regs_read,
            detail.regs_write == self.regs_write,
            detail.properties == self.properties,
    {
        let mut detail = self;
        detail.groups.push(group.to_owned());
        assert(detail.group_texts() =~= self.group_texts().push(group@));
        detail
    }

    /// Sets the property `key` to `value`: a key that is already there
    /// keeps its place and gets the new value, a new key goes to the end.
    /// Keys stay unique where they were.
    pub fn with_property(self, key: &str, value: &str) -> (detail: Self)
        ensures
            forall|i: int|
                first_with_key(self.property_texts(), key@, i) ==> detail.property_texts()
                    == self.property_texts().update(i, (key@, value@)),
            (forall|i: int|
                0 <= i < self.property_texts().len() ==> self.property_texts()[i].0 != key@)
                ==> detail.property_texts() == self.property_texts().push((key@, value@)),
            self.wf() ==> detail.wf(),
            detail.architecture == self.architecture,
            detail.regs_read == self.regs_read,
            detail.regs_write == self.regs_write,
            detail.groups == self.groups,
    {
        let mut detail = self;
        let mut at: usize = 0;
        while at < detail.properties.len()
            invariant
                at <= detail.properties@.len(),
                detail == self,
                forall|j: int| 0 <= j < at ==> self.property_texts()[j].0 != key@,
            decreases detail.properties@.len() - at,
        {
            if str_eq(detail.properties[at].0.as_str(), key) {
                assert(self.property_texts()[at as int].0 == key@);
                detail.properties.set(at, (key.to_owned(), value.to_owned()));
                assert(detail.property_texts() =~= self.property_texts().update(
                    at as int,
                    (key@, value@),
                ));
                assert forall|i: int| first_with_key(self.property_texts(), key@, i) implies i
                    == at by {
                    if at < i {
                        assert(self.property_texts()[at as int].0 == key@);
                    }
                }
                assert forall|i: int, j: int|
                    self.wf() && 0 <= i < j < detail.property_texts().len()
                        implies detail.property_texts()[i].0 != detail.property_texts()[j].0 by {
                    assert(detail.property_texts()[i].0 == self.property_texts()[i].0);
                    assert(detail.property_texts()[j].0 == self.property_texts()[j].0);
                }
                return detail;
            }
            at = at + 1;
        }
        detail.properties.push((key.to_owned(), value.to_owned()));
        assert(detail.property_texts() =~= self.property_texts().push((key@, value@)));
        detail
    }
}

impl Default for BasicInstructionDetail {
    /// An annotation with an empty architecture name and nothing recorded.
    fn default() -> (detail: Self)
        ensures
            detail.architecture@ == Seq::<char>::empty(),
            detail.regs_read@ == Seq::<u32>::empty(),
            detail.regs_write@ == Seq::<u32>::empty(),
            detail.group_texts() == Seq::<Seq<char>>::empty(),
            detail.property_texts() == Seq::<(Seq<char>, Seq<char>)>::empty(),
            detail.wf(),
    {
        proof {
            reveal_strlit("");
        }
        let detail = BasicInstructionDetail::new("");
        assert(detail.architecture@ =~= Seq::<char>::empty());
        detail
    }
}

impl Detail for BasicInstructionDetail {
    open spec fn spec_architecture_name(&self) -> Seq<char> {
        self.architecture@
    }

    open spec fn spec_registers_read(&self) -> Seq<u32> {
        self.regs_read@
    }

    open spec fn spec_registers_written(&self) -> Seq<u32> {
        self.regs_write@
    }

    fn architecture_name(&self) -> (name: &'static str) {
        self.architecture
    }

    fn registers_read(&self) -> (regs: &[u32]) {
        self.regs_read.as_slice()
    }

    fn registers_written(&self) -> (regs: &[u32]) {
        self.regs_write.as_slice()
    }
}

} // verus!
