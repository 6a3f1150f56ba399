//! The registry of block types: creators by type tag, and the factory that
//! instantiates from them.

use crate::blocks::standard::{cycle_model, set_reset_model, switch_model, Cycle, SetReset, Switch};
use crate::runtime::fb::{FunctionBlock, Instance};
use crate::runtime::model::BlockModel;
use crate::text::same_text;
use vstd::prelude::*;

verus! {

/// Why a factory made no block.
#[derive(Clone, Copy, Debug, PartialEq, Eq, Structural)]
pub enum CreationError {
    UnknownType,
    Internal,
}

/// Something that instantiates blocks by type tag. Its catalog says which
/// tags it knows and what a fresh instance of each is.
pub trait FunctionBlockFactory {
    /// The types this factory knows, each with the model of a fresh instance.
    spec fn catalog(&self) -> Map<Seq<char>, BlockModel>;

    /// A fresh block of the type `type_tag`. It is made exactly where the
    /// catalog knows the tag; an unknown tag is reported as `UnknownType`.
    fn create(&self, type_tag: &str) -> (created: Result<Box<dyn FunctionBlock>, CreationError>)
        ensures
            created is Ok <==> self.catalog().contains_key(type_tag@),
            created matches Ok(block) ==> block.model() == self.catalog()[type_tag@],
            created matches Err(e) ==> e == CreationError::UnknownType,
    ;
}

/// The constructor of one block type.
pub trait Creator: Send + Sync {
    /// The model of every block this creator makes.
    spec fn product(&self) -> BlockModel;

    /// A fresh block.
    fn create(&self) -> (created: Instance)
        ensures
            created.block.model() == self.product(),
    ;
}

/// The catalog that a sequence of registrations amounts to: a later
/// registration of a tag replaces an earlier one.
pub open spec fn registered(types: Seq<(String, Box<dyn Creator>)>) -> Map<Seq<char>, BlockModel>
    decreases types.len(),
{
    if types.len() == 0 {
        Map::empty()
    } else {
        registered(types.drop_last()).insert(types.last().0@, types.last().1.product())
    }
}

/// A tag that no registration names is not in the catalog.
proof fn lemma_registered_absent(types: Seq<(String, Box<dyn Creator>)>, tag: Seq<char>)
    requires
        forall|j: int| 0 <= j < types.len() ==> types[j].0@ != tag,
    ensures
        !registered(types).contains_key(tag),
    decreases types.len(),
{
    if types.len() > 0 {
        lemma_registered_absent(types.drop_last(), tag);
    }
}

/// The catalog gives a tag what its last registration makes.
proof fn lemma_registered_last(types: Seq<(String, Box<dyn Creator>)>, k: int, tag: Seq<char>)
    requires
        0 <= k < types.len(),
        types[k].0@ == tag,
        forall|j: int| k < j < types.len() ==> types[j].0@ != tag,
    ensures
        registered(types).contains_key(tag),
        registered(types)[tag] == types[k].1.product(),
    decreases types.len(),
{
    if k < types.len() - 1 {
        lemma_registered_last(types.drop_last(), k, tag);
    }
}

/// The factory of the standard block types and of any type registered with
/// it.
pub struct StandardFactory {
    types: Vec<(String, Box<dyn Creator>)>,
}

impl StandardFactory {
    /// A factory that knows no type yet.
    pub fn new() -> (factory: Self)
        ensures
            factory.catalog() == Map::<Seq<char>, BlockModel>::empty(),
    {
        StandardFactory { types: Vec::new() }
    }

    /// Registers `creator` under `name`, in place of any creator registered
    /// under that name before.
    pub fn register_type(&mut self, name: String, creator: Box<dyn Creator>)
        ensures
            final(self).catalog() == old(self).catalog().insert(name@, creator.product()),
    {
        let entry = (name, creator);
        self.types.push(entry);
        assert(self.types@.drop_last() =~= old(self).types@);
    }

    /// Registers the standard types: `E_SR`, `E_CYCLE` and `E_SWITCH`.
    pub fn register_standard_types(&mut self)
        ensures
            final(self).catalog() == old(self).catalog().insert("E_SR"@, set_reset_model()).insert(
                "E_CYCLE"@,
                cycle_model(),
            ).insert("E_SWITCH"@, switch_model()),
    {
        self.register_type("E_SR".to_owned(), Box::new(SetReset::new()));
        self.register_type("E_CYCLE".to_owned(), Box::new(Cycle::new()));
        self.register_type("E_SWITCH".to_owned(), Box::new(Switch::new()));
    }
}

impl FunctionBlockFactory for StandardFactory {
    closed spec fn catalog(&self) -> Map<Seq<char>, BlockModel> {
        registered(self.types@)
    }

    fn create(&self, type_tag: &str) -> (created: Result<Box<dyn FunctionBlock>, CreationError>) {
        let mut i: usize = self.types.len();
        while i > 0
            invariant
                i <= self.types@.len(),
                forall|j: int| i <= j < self.types@.len() ==> self.types@[j].0@ != type_tag@,
            decreases i,
        {
            i -= 1;
            if same_text(self.types[i].0.as_str(), type_tag) {
                proof {
                    lemma_registered_last(self.types@, i as int, type_tag@);
                }
                let made = self.types[i].1.create();
                let block = made.block;
                let created = Ok(block);
                return created;
            }
        }
        proof {
            lemma_registered_absent(self.types@, type_tag@);
        }
        Err(CreationError::UnknownType)
    }
}

} // verus!
