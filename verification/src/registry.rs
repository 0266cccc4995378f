//! Component registries.
//!
//! A registry maps a type-tag string, unique within its kind, to a builder
//! handle. Registration happens once during initialisation; registering the
//! same tag twice within a kind is rejected as a configuration error. The
//! engine keeps one registry per component kind: input, output, processor and
//! buffer.
//!
//! Builders themselves construct concrete components outside the engine; the
//! registry identifies them by an opaque handle chosen by the registrant.

use crate::error::Error;
use vstd::prelude::*;
use vstd::string::StringExecFns;

verus! {

/// A write-once lookup from type-tag to builder handle.
pub struct Registry {
    tags: Vec<String>,
    builders: Vec<u64>,
}

impl Registry {
    /// The registered tags, in registration order.
    pub closed spec fn tags(self) -> Seq<Seq<char>> {
        self.tags@.map_values(|s: String| s@)
    }

    /// The registered builder handles, in registration order.
    pub closed spec fn builders(self) -> Seq<u64> {
        self.builders@
    }

    /// One builder per tag, and no tag registered twice.
    pub open spec fn wf(self) -> bool {
        &&& self.builders().len() == self.tags().len()
        &&& forall|i: int, j: int|
            0 <= i < j < self.tags().len() ==> self.tags()[i] != self.tags()[j]
    }

    /// Whether a tag is registered.
    pub open spec fn spec_contains(self, tag: Seq<char>) -> bool {
        exists|i: int| 0 <= i < self.tags().len() && self.tags()[i] == tag
    }

    /// The builder handle a tag maps to, if the tag is registered.
    pub closed spec fn spec_lookup(self, tag: Seq<char>) -> Option<u64> {
        if self.spec_contains(tag) {
            let i = choose|i: int| 0 <= i < self.tags().len() && self.tags()[i] == tag;
            if 0 <= i < self.builders().len() {
                Some(self.builders()[i])
            } else {
                None
            }
        } else {
            None
        }
    }

    /// An empty registry.
    pub fn new() -> (r: Registry)
        ensures
            r.tags() == Seq::<Seq<char>>::empty(),
            r.wf(),
    {
        let r = Registry { tags: Vec::new(), builders: Vec::new() };
        proof {
            assert(r.tags() =~= Seq::<Seq<char>>::empty());
        }
        r
    }

    /// Register a builder under a tag. A tag already registered is rejected
    /// with a `Config` error and the registry is left unchanged.
    pub fn register(&mut self, tag: String, builder: u64) -> (r: Result<(), Error>)
        requires
            old(self).wf(),
        ensures
            final(self).wf(),
            r is Ok <==> !old(self).spec_contains(tag@),
            r is Ok ==> {
                &&& final(self).tags() == old(self).tags().push(tag@)
                &&& final(self).builders() == old(self).builders().push(builder)
            },
            r is Ok ==> final(self).spec_lookup(tag@) == Some(builder),
            r is Err ==> *final(self) == *old(self),
            r matches Err(e) ==> e is Config,
    {
        let n = self.tags.len();
        for i in 0..n
            invariant
                *self == *old(self),
                self.wf(),
                n == self.tags@.len(),
                forall|k: int| 0 <= k < i ==> self.tags()[k] != tag@,
        {
            proof {
                assert(self.tags()[i as int] == self.tags@[i as int]@);
            }
            if self.tags[i] == tag {
                return Err(
                    Error::Config(
                        String::from_str("type already registered: ").concat(tag.as_str()),
                    ),
                );
            }
        }
        proof {
            assert(!self.spec_contains(tag@));
        }
        let ghost old_tags = self.tags();
        self.tags.push(tag);
        self.builders.push(builder);
        proof {
            assert(self.tags() =~= old_tags.push(self.tags@.last()@));
            assert forall|i: int, j: int|
                0 <= i < j < self.tags().len() implies self.tags()[i] != self.tags()[j] by {
                if j < self.tags().len() - 1 {
                    assert(old_tags[i] != old_tags[j]);
                } else {
                    assert(!old(self).spec_contains(self.tags()[j]) ==> old_tags[i] != self.tags()[
                    j]);
                }
            }
            let last = self.tags().len() - 1;
            assert(self.tags()[last] == tag@);
            assert(self.builders()[last] == builder);
            assert(self.spec_contains(tag@));
            let j = choose|j: int| 0 <= j < self.tags().len() && self.tags()[j] == tag@;
            if j != last {
                assert(self.tags()[j] != self.tags()[last]);
            }
            assert(self.spec_lookup(tag@) == Some(builder));
        }
        Ok(())
    }

    /// The builder handle registered under a tag, if any.
    pub fn lookup(&self, tag: &String) -> (r: Option<u64>)
        requires
            self.wf(),
        ensures
            r == self.spec_lookup(tag@),
            r is Some <==> self.spec_contains(tag@),
    {
        let n = self.tags.len();
        for i in 0..n
            invariant
                self.wf(),
                n == self.tags@.len(),
                forall|k: int| 0 <= k < i ==> self.tags()[k] != tag@,
        {
            proof {
                assert(self.tags()[i as int] == self.tags@[i as int]@);
            }
            if self.tags[i] == *tag {
                proof {
                    assert(self.spec_contains(tag@));
                    let j = choose|j: int|
                        0 <= j < self.tags().len() && self.tags()[j] == tag@;
                    if j != i as int {
                        if (i as int) < j {
                            assert(self.tags()[i as int] != self.tags()[j]);
                        } else {
                            assert(self.tags()[j] != self.tags()[i as int]);
                        }
                    }
                    assert(self.spec_lookup(tag@) == Some(self.builders()[i as int]));
                }
                return Some(self.builders[i]);
            }
        }
        None
    }

    /// Whether a tag is registered.
    pub fn contains(&self, tag: &String) -> (r: bool)
        requires
            self.wf(),
        ensures
            r == self.spec_contains(tag@),
    {
        match self.lookup(tag) {
            Some(_) => true,
            None => false,
        }
    }

    /// The registered tags, in registration order.
    pub fn registered_types(&self) -> (r: Vec<String>)
        ensures
            r@.map_values(|s: String| s@) == self.tags(),
    {
        let mut r: Vec<String> = Vec::new();
        let n = self.tags.len();
        for i in 0..n
            invariant
                n == self.tags@.len(),
                r@.len() == i,
                forall|k: int| 0 <= k < i ==> (#[trigger] r@[k])@ == self.tags@[k]@,
        {
            r.push(self.tags[i].clone());
        }
        proof {
            assert(r@.map_values(|s: String| s@) =~= self.tags());
        }
        r
    }
}

/// The four component registries of one engine process: input, output,
/// processor and buffer builders, each keyed by type-tag.
pub struct Registries {
    input: Registry,
    output: Registry,
    processor: Registry,
    buffer: Registry,
}

impl Registries {
    /// The input-builder registry.
    pub closed spec fn spec_input(self) -> Registry {
        self.input
    }

    /// The output-builder registry.
    pub closed spec fn spec_output(self) -> Registry {
        self.output
    }

    /// The processor-builder registry.
    pub closed spec fn spec_processor(self) -> Registry {
        self.processor
    }

    /// The buffer-builder registry.
    pub closed spec fn spec_buffer(self) -> Registry {
        self.buffer
    }

    /// All four registries are well-formed.
    pub open spec fn wf(self) -> bool {
        &&& self.spec_input().wf()
        &&& self.spec_output().wf()
        &&& self.spec_processor().wf()
        &&& self.spec_buffer().wf()
    }

    /// Empty registries, ready for the bootstrap registration pass.
    pub fn new() -> (r: Registries)
        ensures
            r.wf(),
            r.spec_input().tags() == Seq::<Seq<char>>::empty(),
            r.spec_output().tags() == Seq::<Seq<char>>::empty(),
            r.spec_processor().tags() == Seq::<Seq<char>>::empty(),
            r.spec_buffer().tags() == Seq::<Seq<char>>::empty(),
    {
        Registries {
            input: Registry::new(),
            output: Registry::new(),
            processor: Registry::new(),
            buffer: Registry::new(),
        }
    }

    /// Register an input builder under a tag.
    pub fn register_input_builder(&mut self, tag: String, builder: u64) -> (r: Result<(), Error>)
        requires
            old(self).wf(),
        ensures
            final(self).wf(),
            r is Ok <==> !old(self).spec_input().spec_contains(tag@),
            r is Ok ==> final(self).spec_input().spec_lookup(tag@) == Some(builder),
            r is Ok ==> final(self).spec_input().tags() == old(self).spec_input().tags().push(tag@)
                && final(self).spec_input().builders() == old(self).spec_input().builders().push(
                builder,
            ),
            r is Err ==> *final(self) == *old(self),
            r matches Err(e) ==> e is Config,
            final(self).spec_output() == old(self).spec_output(),
            final(self).spec_processor() == old(self).spec_processor(),
            final(self).spec_buffer() == old(self).spec_buffer(),
    {
        self.input.register(tag, builder)
    }

    /// Register an output builder under a tag.
    pub fn register_output_builder(&mut self, tag: String, builder: u64) -> (r: Result<(), Error>)
        requires
            old(self).wf(),
        ensures
            final(self).wf(),
            r is Ok <==> !old(self).spec_output().spec_contains(tag@),
            r is Ok ==> final(self).spec_output().spec_lookup(tag@) == Some(builder),
            r is Ok ==> final(self).spec_output().tags() == old(self).spec_output().tags().push(
                tag@,
            ) && final(self).spec_output().builders() == old(self).spec_output().builders().push(
                builder,
            ),
            r is Err ==> *final(self) == *old(self),
            r matches Err(e) ==> e is Config,
            final(self).spec_input() == old(self).spec_input(),
            final(self).spec_processor() == old(self).spec_processor(),
            final(self).spec_buffer() == old(self).spec_buffer(),
    {
        self.output.register(tag, builder)
    }

    /// Register a processor builder under a tag.
    pub fn register_processor_builder(&mut self, tag: String, builder: u64) -> (r: Result<
        (),
        Error,
    >)
        requires
            old(self).wf(),
        ensures
            final(self).wf(),
            r is Ok <==> !old(self).spec_processor().spec_contains(tag@),
            r is Ok ==> final(self).spec_processor().spec_lookup(tag@) == Some(builder),
            r is Ok ==> final(self).spec_processor().tags() == old(
                self,
            ).spec_processor().tags().push(tag@) && final(self).spec_processor().builders() == old(
                self,
            ).spec_processor().builders().push(builder),
            r is Err ==> *final(self) == *old(self),
            r matches Err(e) ==> e is Config,
            final(self).spec_input() == old(self).spec_input(),
            final(self).spec_output() == old(self).spec_output(),
            final(self).spec_buffer() == old(self).spec_buffer(),
    {
        self.processor.register(tag, builder)
    }

    /// Register a buffer builder under a tag.
    pub fn register_buffer_builder(&mut self, tag: String, builder: u64) -> (r: Result<(), Error>)
        requires
            old(self).wf(),
        ensures
            final(self).wf(),
            r is Ok <==> !old(self).spec_buffer().spec_contains(tag@),
            r is Ok ==> final(self).spec_buffer().spec_lookup(tag@) == Some(builder),
            r is Ok ==> final(self).spec_buffer().tags() == old(self).spec_buffer().tags().push(
                tag@,
            ) && final(self).spec_buffer().builders() == old(self).spec_buffer().builders().push(
                builder,
            ),
            r is Err ==> *final(self) == *old(self),
            r matches Err(e) ==> e is Config,
            final(self).spec_input() == old(self).spec_input(),
            final(self).spec_output() == old(self).spec_output(),
            final(self).spec_processor() == old(self).spec_processor(),
    {
        self.buffer.register(tag, builder)
    }

    /// The input builder registered under a tag, if any.
    pub fn lookup_input(&self, tag: &String) -> (r: Option<u64>)
        requires
            self.wf(),
        ensures
            r == self.spec_input().spec_lookup(tag@),
            r is Some <==> self.spec_input().spec_contains(tag@),
    {
        self.input.lookup(tag)
    }

    /// The output builder registered under a tag, if any.
    pub fn lookup_output(&self, tag: &String) -> (r: Option<u64>)
        requires
            self.wf(),
        ensures
            r == self.spec_output().spec_lookup(tag@),
            r is Some <==> self.spec_output().spec_contains(tag@),
    {
        self.output.lookup(tag)
    }

    /// The processor builder registered under a tag, if any.
    pub fn lookup_processor(&self, tag: &String) -> (r: Option<u64>)
        requires
            self.wf(),
        ensures
            r == self.spec_processor().spec_lookup(tag@),
            r is Some <==> self.spec_processor().spec_contains(tag@),
    {
        self.processor.lookup(tag)
    }

    /// The buffer builder registered under a tag, if any.
    pub fn lookup_buffer(&self, tag: &String) -> (r: Option<u64>)
        requires
            self.wf(),
        ensures
            r == self.spec_buffer().spec_lookup(tag@),
            r is Some <==> self.spec_buffer().spec_contains(tag@),
    {
        self.buffer.lookup(tag)
    }

    /// The registered buffer type-tags, in registration order.
    pub fn get_registered_buffer_types(&self) -> (r: Vec<String>)
        ensures
            r@.map_values(|s: String| s@) == self.spec_buffer().tags(),
    {
        self.buffer.registered_types()
    }
}

} // verus!
