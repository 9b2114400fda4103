//! Rust-backed XAML classes: the property list of a class under construction,
//! the bookkeeping of its registration with the native side, and the side
//! table from a handler to its property types that lets change and coerce
//! callbacks decode the values they receive.

use vstd::prelude::*;

use crate::ffi::{ClassBase, PropType};
use crate::raw::no_nul;

pub mod fpm_options;

verus! {

/// Metadata options for one dependency property.
#[derive(Clone, Copy, Debug, Default)]
pub struct PropertyOptions {
    /// Bitmask of [`fpm_options`] flags. Non-zero promotes the property's
    /// metadata to a `FrameworkPropertyMetadata`.
    pub fpm_options: u32,
    /// Register the property read-only: only the privileged setters write it.
    pub read_only: bool,
    /// Route this property through the class coerce handler. Only honored
    /// for scalar / `Thickness` / `Color` / `Rect` / `Point` / `Size` /
    /// `Vector` properties.
    pub coerce: bool,
}

/// One dependency property of a class under construction.
pub struct PropSpec {
    /// The XAML-visible property name.
    pub name: String,
    /// Its value type.
    pub kind: PropType,
    /// Its metadata options.
    pub options: PropertyOptions,
    /// For a runtime-enum property: the reflected name of the enum type and
    /// the initial member value. `None` for every other property.
    pub enum_type: Option<(String, i32)>,
}

/// The abstract value of a [`PropSpec`].
pub struct PropSpecView {
    pub name: Seq<char>,
    pub kind: PropType,
    pub options: PropertyOptions,
    pub enum_type: Option<(Seq<char>, i32)>,
}

impl View for PropSpec {
    type V = PropSpecView;

    open spec fn view(&self) -> PropSpecView {
        PropSpecView {
            name: self.name@,
            kind: self.kind,
            options: self.options,
            enum_type: match self.enum_type {
                Some((t, d)) => Some((t@, d)),
                None => None,
            },
        }
    }
}

/// The native call that registers one property, with the arguments it takes.
pub enum PropertyRegistration<'a> {
    /// A runtime-enum property: registered by the enum entry point with the
    /// reflected enum type name and the initial member value.
    Enum { enum_type: &'a str, default: i32, fpm_options: u32, read_only: bool },
    /// Any other property: registered by the general entry point with the raw
    /// value-type tag; its default comes from the caller's value storage.
    Plain { kind: u32, fpm_options: u32, read_only: bool, coerce: bool },
}

impl PropSpec {
    /// Which native entry point registers this property, and with which
    /// arguments. Coercion is not offered for enum properties.
    pub fn registration(&self) -> (r: PropertyRegistration<'_>)
        ensures
            match self@.enum_type {
                Some((t, d)) => r matches PropertyRegistration::Enum { enum_type, default, fpm_options, read_only }
                    && enum_type@ == t && default == d && fpm_options == self.options.fpm_options
                    && read_only == self.options.read_only,
                None => r matches PropertyRegistration::Plain { kind, fpm_options, read_only, coerce }
                    && kind == self.kind.raw_of() && fpm_options == self.options.fpm_options
                    && read_only == self.options.read_only && coerce == self.options.coerce,
            },
    {
        match &self.enum_type {
            Some((t, d)) => PropertyRegistration::Enum {
                enum_type: t.as_str(),
                default: *d,
                fpm_options: self.options.fpm_options,
                read_only: self.options.read_only,
            },
            None => PropertyRegistration::Plain {
                kind: self.kind.to_raw(),
                fpm_options: self.options.fpm_options,
                read_only: self.options.read_only,
                coerce: self.options.coerce,
            },
        }
    }
}

/// The property list and base class of a Rust-backed class before it is
/// registered. Property indices are dense and grow in addition order,
/// starting at 0; the change callback reports a property by that index.
pub struct ClassBuilder {
    name: String,
    base: ClassBase,
    props: Vec<PropSpec>,
}

impl ClassBuilder {
    /// The XAML-visible type name.
    pub closed spec fn spec_name(&self) -> Seq<char> {
        self.name@
    }

    /// The base class.
    pub closed spec fn spec_base(&self) -> ClassBase {
        self.base
    }

    /// The properties added so far, in index order.
    pub closed spec fn spec_props(&self) -> Seq<PropSpecView> {
        self.props@.map_values(|p: PropSpec| p@)
    }

    /// Begin a class named `name` (e.g. `"AOR.NineSlicer"`) deriving from
    /// `base`, with no properties yet.
    pub fn new(name: &str, base: ClassBase) -> (r: Self)
        requires
            no_nul(name@),
        ensures
            r.spec_name() == name@,
            r.spec_base() == base,
            r.spec_props() == Seq::<PropSpecView>::empty(),
    {
        let r = ClassBuilder { name: String::from_str(name), base, props: Vec::new() };
        assert(r.spec_props() =~= Seq::<PropSpecView>::empty());
        r
    }

    /// The XAML-visible type name.
    pub fn name(&self) -> (r: &str)
        ensures
            r@ == self.spec_name(),
    {
        self.name.as_str()
    }

    /// The base class.
    pub fn base(&self) -> (r: ClassBase)
        ensures
            r == self.spec_base(),
    {
        self.base
    }

    /// How many properties have been added.
    pub fn num_properties(&self) -> (r: usize)
        ensures
            r == self.spec_props().len(),
    {
        self.props.len()
    }

    /// The property with dense index `index`.
    pub fn property(&self, index: usize) -> (r: &PropSpec)
        requires
            index < self.spec_props().len(),
        ensures
            r@ == self.spec_props()[index as int],
    {
        &self.props[index]
    }

    /// Append a dependency property of type `kind` and return its dense index.
    pub fn add_property(&mut self, name: &str, kind: PropType) -> (idx: u32)
        requires
            no_nul(name@),
            old(self).spec_props().len() < u32::MAX,
        ensures
            idx == old(self).spec_props().len(),
            final(self).spec_props() == old(self).spec_props().push(
                PropSpecView { name: name@, kind, options: PropertyOptions { fpm_options: 0, read_only: false, coerce: false }, enum_type: None },
            ),
            final(self).spec_name() == old(self).spec_name(),
            final(self).spec_base() == old(self).spec_base(),
    {
        self.add_property_ex(name, kind, PropertyOptions { fpm_options: 0, read_only: false, coerce: false })
    }

    /// Append a dependency property of type `kind` with metadata `options`
    /// and return its dense index.
    pub fn add_property_ex(&mut self, name: &str, kind: PropType, options: PropertyOptions) -> (idx: u32)
        requires
            no_nul(name@),
            old(self).spec_props().len() < u32::MAX,
        ensures
            idx == old(self).spec_props().len(),
            final(self).spec_props() == old(self).spec_props().push(
                PropSpecView { name: name@, kind, options, enum_type: None },
            ),
            final(self).spec_name() == old(self).spec_name(),
            final(self).spec_base() == old(self).spec_base(),
    {
        let spec = PropSpec { name: String::from_str(name), kind, options, enum_type: None };
        self.push_spec(spec)
    }

    /// Append a dependency property whose value type is the runtime enum
    /// named `enum_type_name` (stored as an `int32`), starting at member value
    /// `default`, and return its dense index.
    pub fn add_enum_property(
        &mut self,
        name: &str,
        enum_type_name: &str,
        default: i32,
        options: PropertyOptions,
    ) -> (idx: u32)
        requires
            no_nul(name@),
            no_nul(enum_type_name@),
            old(self).spec_props().len() < u32::MAX,
        ensures
            idx == old(self).spec_props().len(),
            final(self).spec_props() == old(self).spec_props().push(
                PropSpecView {
                    name: name@,
                    kind: PropType::Enum,
                    options,
                    enum_type: Some((enum_type_name@, default)),
                },
            ),
            final(self).spec_name() == old(self).spec_name(),
            final(self).spec_base() == old(self).spec_base(),
    {
        let spec = PropSpec {
            name: String::from_str(name),
            kind: PropType::Enum,
            options,
            enum_type: Some((String::from_str(enum_type_name), default)),
        };
        self.push_spec(spec)
    }

    fn push_spec(&mut self, spec: PropSpec) -> (idx: u32)
        requires
            old(self).spec_props().len() < u32::MAX,
        ensures
            idx == old(self).spec_props().len(),
            final(self).spec_props() == old(self).spec_props().push(spec@),
            final(self).spec_name() == old(self).spec_name(),
            final(self).spec_base() == old(self).spec_base(),
    {
        let ghost v = spec@;
        self.props.push(spec);
        assert(self.spec_props() =~= old(self).spec_props().push(v));
        (self.props.len() - 1) as u32
    }

    /// The value types of the properties, in index order: what the change and
    /// coerce callbacks of this class decode its values by.
    pub fn prop_types(&self) -> (r: Vec<PropType>)
        ensures
            r@ == self.spec_props().map_values(|p: PropSpecView| p.kind),
    {
        let mut r: Vec<PropType> = Vec::new();
        let mut i: usize = 0;
        while i < self.props.len()
            invariant
                i <= self.props.len(),
                r@ == self.spec_props().take(i as int).map_values(|p: PropSpecView| p.kind),
            decreases self.props.len() - i,
        {
            r.push(self.props[i].kind);
            proof {
                assert(self.spec_props()[i as int] == self.props@[i as int]@);
            }
            i = i + 1;
            assert(r@ =~= self.spec_props().take(i as int).map_values(|p: PropSpecView| p.kind));
        }
        assert(self.spec_props().take(i as int) =~= self.spec_props());
        r
    }

    /// Start registering the properties with the native side.
    pub fn registrar(&self) -> (r: PropertyRegistrar)
        requires
            self.spec_props().len() <= u32::MAX,
        ensures
            r.wf(),
            r.spec_recorded() == Seq::<u32>::empty(),
            r.spec_total() == self.spec_props().len(),
    {
        PropertyRegistrar { total: self.props.len(), done: 0, failed: false, recorded: Ghost(Seq::empty()) }
    }
}

/// The index the native side reports when it rejects a property.
pub open spec fn rejected_index() -> u32 {
    u32::MAX
}

/// Whether any of the reported property indices is a rejection.
pub open spec fn any_rejected(recorded: Seq<u32>) -> bool {
    exists|i: int| 0 <= i < recorded.len() && recorded[i] == rejected_index()
}

/// Bookkeeping of a class registration: the properties are registered one by
/// one in index order, and the first rejection aborts the registration (the
/// caller then unregisters the class).
pub struct PropertyRegistrar {
    total: usize,
    done: usize,
    failed: bool,
    recorded: Ghost<Seq<u32>>,
}

impl PropertyRegistrar {
    /// The indices the native side reported, in registration order.
    pub closed spec fn spec_recorded(&self) -> Seq<u32> {
        self.recorded@
    }

    /// How many properties the class has.
    pub closed spec fn spec_total(&self) -> nat {
        self.total as nat
    }

    /// Internal consistency of the counters with the recorded indices.
    pub closed spec fn wf(&self) -> bool {
        &&& self.done == self.recorded@.len()
        &&& self.done <= self.total
        &&& self.total <= u32::MAX
        &&& self.failed == any_rejected(self.recorded@)
    }

    /// The dense index of the property to register next: `None` once every
    /// property is registered, or once one was rejected.
    pub fn next_property(&self) -> (r: Option<usize>)
        requires
            self.wf(),
        ensures
            !any_rejected(self.spec_recorded()) && self.spec_recorded().len() < self.spec_total()
                ==> r == Some(self.spec_recorded().len() as usize),
            any_rejected(self.spec_recorded()) || self.spec_recorded().len() >= self.spec_total()
                ==> r is None,
    {
        if !self.failed && self.done < self.total {
            Some(self.done)
        } else {
            None
        }
    }

    /// Record the index the native side reported for the property just
    /// registered. Returns `false` when it is a rejection: the registration
    /// is then over and the class must be unregistered.
    pub fn record(&mut self, idx: u32) -> (accepted: bool)
        requires
            old(self).wf(),
            !any_rejected(old(self).spec_recorded()),
            old(self).spec_recorded().len() < old(self).spec_total(),
        ensures
            final(self).wf(),
            final(self).spec_recorded() == old(self).spec_recorded().push(idx),
            final(self).spec_total() == old(self).spec_total(),
            accepted == (idx != rejected_index()),
            accepted ==> !any_rejected(final(self).spec_recorded()),
            !accepted ==> any_rejected(final(self).spec_recorded()),
    {
        let ghost before = self.recorded@;
        self.recorded = Ghost(self.recorded@.push(idx));
        self.done = self.done + 1;
        let accepted = idx != u32::MAX;
        self.failed = !accepted;
        proof {
            let after = self.recorded@;
            if accepted {
                assert forall|i: int| 0 <= i < after.len() implies after[i] != rejected_index() by {
                    if i < before.len() {
                        assert(before[i] == after[i]);
                    }
                }
            } else {
                assert(after[after.len() - 1] == rejected_index());
            }
        }
        accepted
    }

    /// The outcome: the number of registered properties when every property
    /// was registered and none rejected, `None` otherwise.
    pub fn finish(&self) -> (r: Option<u32>)
        requires
            self.wf(),
        ensures
            r is Some <==> (!any_rejected(self.spec_recorded()) && self.spec_recorded().len() == self.spec_total()),
            r matches Some(n) ==> n == self.spec_total(),
    {
        if !self.failed && self.done == self.total {
            Some(self.total as u32)
        } else {
            None
        }
    }
}


/// The property types recorded for one handler and property index, as the
/// change and coerce callbacks look them up: `None` when the handler has no
/// record or the index is past its property list.
pub open spec fn lookup_spec(table: Map<usize, Seq<PropType>>, key: usize, prop_index: u32) -> Option<PropType> {
    if table.dom().contains(key) && prop_index < table[key].len() {
        Some(table[key][prop_index as int])
    } else {
        None
    }
}

/// Side table from a handler (keyed by the address of its boxed state) to
/// the types of its class's properties, in index order. Populated when a
/// class is registered, it lets a callback that only receives the handler
/// and a property index decode the value pointer it was handed.
pub struct PropTypeTable {
    entries: Vec<(usize, Vec<PropType>)>,
}

impl View for PropTypeTable {
    type V = Map<usize, Seq<PropType>>;

    closed spec fn view(&self) -> Map<usize, Seq<PropType>> {
        Map::new(
            |k: usize| exists|i: int| 0 <= i < self.entries@.len() && self.entries@[i].0 == k,
            |k: usize| self.entries@[self.key_index(k)].1@,
        )
    }
}

impl PropTypeTable {
    /// The position of the entry for `k`.
    closed spec fn key_index(&self, k: usize) -> int {
        choose|i: int| 0 <= i < self.entries@.len() && self.entries@[i].0 == k
    }

    /// Each key has at most one entry.
    pub closed spec fn wf(&self) -> bool {
        forall|i: int, j: int|
            0 <= i < self.entries@.len() && 0 <= j < self.entries@.len() && i != j
                ==> self.entries@[i].0 != self.entries@[j].0
    }

    proof fn lemma_index_of(&self, i: int)
        requires
            self.wf(),
            0 <= i < self.entries@.len(),
        ensures
            self@.dom().contains(self.entries@[i].0),
            self@[self.entries@[i].0] == self.entries@[i].1@,
    {
        let k = self.entries@[i].0;
        assert(self@.dom().contains(k));
        let j = self.key_index(k);
        assert(0 <= j < self.entries@.len() && self.entries@[j].0 == k);
    }

    /// An empty table.
    pub fn new() -> (r: Self)
        ensures
            r.wf(),
            r@ == Map::<usize, Seq<PropType>>::empty(),
    {
        let r = PropTypeTable { entries: Vec::new() };
        assert(r@ =~= Map::<usize, Seq<PropType>>::empty());
        r
    }

    fn find(&self, key: usize) -> (r: Option<usize>)
        requires
            self.wf(),
        ensures
            match r {
                Some(i) => i < self.entries@.len() && self.entries@[i as int].0 == key,
                None => !self@.dom().contains(key),
            },
    {
        let mut i: usize = 0;
        while i < self.entries.len()
            invariant
                i <= self.entries@.len(),
                forall|j: int| 0 <= j < i ==> self.entries@[j].0 != key,
            decreases self.entries@.len() - i,
        {
            if self.entries[i].0 == key {
                return Some(i);
            }
            i = i + 1;
        }
        None
    }

    /// Record `types` as the property types of the handler `key`, replacing
    /// any earlier record for it.
    pub fn record(&mut self, key: usize, types: Vec<PropType>)
        requires
            old(self).wf(),
        ensures
            final(self).wf(),
            final(self)@ == old(self)@.insert(key, types@),
    {
        let ghost tv = types@;
        match self.find(key) {
            Some(i) => {
                self.entries.set(i, (key, types));
                proof {
                    assert forall|k: usize| #![auto] self@.dom().contains(k) == old(self)@.insert(key, tv).dom().contains(k) by {
                        if old(self)@.dom().contains(k) {
                            let j = old(self).key_index(k);
                            assert(self.entries@[j].0 == k);
                        }
                        if self@.dom().contains(k) {
                            let j = self.key_index(k);
                            assert(old(self).entries@[j].0 == k);
                        }
                    }
                    assert forall|k: usize| #![auto] self@.dom().contains(k) implies self@[k] == old(self)@.insert(key, tv)[k] by {
                        let j = self.key_index(k);
                        self.lemma_index_of(j);
                        if k != key {
                            old(self).lemma_index_of(j);
                        }
                    }
                    assert(self@ =~= old(self)@.insert(key, tv));
                }
            },
            None => {
                self.entries.push((key, types));
                proof {
                    let n = old(self).entries@.len() as int;
                    assert forall|k: usize| #![auto] self@.dom().contains(k) == old(self)@.insert(key, tv).dom().contains(k) by {
                        if old(self)@.dom().contains(k) {
                            let j = old(self).key_index(k);
                            assert(self.entries@[j].0 == k);
                        }
                        if self@.dom().contains(k) && k != key {
                            let j = self.key_index(k);
                            assert(old(self).entries@[j].0 == k);
                        }
                        if k == key {
                            assert(self.entries@[n].0 == k);
                        }
                    }
                    assert forall|k: usize| #![auto] self@.dom().contains(k) implies self@[k] == old(self)@.insert(key, tv)[k] by {
                        let j = self.key_index(k);
                        self.lemma_index_of(j);
                        if j < n {
                            old(self).lemma_index_of(j);
                        }
                    }
                    assert(self@ =~= old(self)@.insert(key, tv));
                }
            },
        }
    }

    /// Drop the record of the handler `key`, if any.
    pub fn forget(&mut self, key: usize)
        requires
            old(self).wf(),
        ensures
            final(self).wf(),
            final(self)@ == old(self)@.remove(key),
    {
        match self.find(key) {
            Some(i) => {
                let ghost old_entries = self.entries@;
                self.entries.remove(i);
                proof {
                    let ii = i as int;
                    assert forall|j: int| 0 <= j < self.entries@.len() implies
                        self.entries@[j] == (if j < ii { old_entries[j] } else { old_entries[j + 1] }) by {}
                    assert forall|k: usize| #![auto] self@.dom().contains(k) == old(self)@.remove(key).dom().contains(k) by {
                        if old(self)@.dom().contains(k) && k != key {
                            let j = old(self).key_index(k);
                            if j < ii {
                                assert(self.entries@[j].0 == k);
                            } else {
                                assert(j != ii);
                                assert(self.entries@[j - 1].0 == k);
                            }
                        }
                        if self@.dom().contains(k) {
                            let j = self.key_index(k);
                            if j < ii {
                                assert(old_entries[j].0 == k);
                            } else {
                                assert(old_entries[j + 1].0 == k);
                            }
                        }
                    }
                    assert forall|k: usize| #![auto] self@.dom().contains(k) implies self@[k] == old(self)@.remove(key)[k] by {
                        let j = self.key_index(k);
                        self.lemma_index_of(j);
                        if j < ii {
                            old(self).lemma_index_of(j);
                        } else {
                            old(self).lemma_index_of(j + 1);
                        }
                    }
                    assert(self@ =~= old(self)@.remove(key));
                }
            },
            None => {
                assert(self@ =~= old(self)@.remove(key));
            },
        }
    }

    /// The type of property `prop_index` of the handler `key`.
    pub fn lookup(&self, key: usize, prop_index: u32) -> (r: Option<PropType>)
        requires
            self.wf(),
        ensures
            r == lookup_spec(self@, key, prop_index),
    {
        match self.find(key) {
            Some(i) => {
                proof {
                    self.lemma_index_of(i as int);
                }
                let types = &self.entries[i].1;
                if (prop_index as usize) < types.len() {
                    Some(types[prop_index as usize])
                } else {
                    None
                }
            },
            None => None,
        }
    }
}

/// Looking a property up after its handler's types were recorded gives the
/// recorded type; after the record is dropped it gives nothing; records of
/// other handlers are untouched by either.
pub proof fn lemma_lookup_after_update(
    table: Map<usize, Seq<PropType>>,
    key: usize,
    other: usize,
    types: Seq<PropType>,
    prop_index: u32,
)
    requires
        other != key,
    ensures
        lookup_spec(table.insert(key, types), key, prop_index)
            == (if prop_index < types.len() { Some(types[prop_index as int]) } else { None }),
        lookup_spec(table.remove(key), key, prop_index) is None,
        lookup_spec(table.insert(key, types), other, prop_index) == lookup_spec(table, other, prop_index),
        lookup_spec(table.remove(key), other, prop_index) == lookup_spec(table, other, prop_index),
{
}

/// Recording a class's property types under its handler makes every lookup
/// for that handler give the type declared for the property at that index,
/// and nothing past the last property.
pub proof fn lemma_registered_types_decode(
    table: Map<usize, Seq<PropType>>,
    key: usize,
    props: Seq<PropSpecView>,
    prop_index: u32,
)
    ensures
        lookup_spec(table.insert(key, props.map_values(|p: PropSpecView| p.kind)), key, prop_index)
            == (if prop_index < props.len() { Some(props[prop_index as int].kind) } else { None }),
{
}

/// What a change or coerce callback does with the value pointer it receives.
pub enum DecodeStep {
    /// The handler or index has no recorded type: report a defensive `false`.
    Unknown,
    /// The pointer is null: report the zero value of the recorded type.
    NullValue(PropType),
    /// Read the value in the layout of the recorded type.
    Read(PropType),
}

/// Decide how to decode the value of property `prop_index` of handler `key`,
/// given whether the value pointer is null.
pub fn decode_step(table: &PropTypeTable, key: usize, prop_index: u32, value_is_null: bool) -> (r: DecodeStep)
    requires
        table.wf(),
    ensures
        match lookup_spec(table@, key, prop_index) {
            None => r == DecodeStep::Unknown,
            Some(kind) => r == (if value_is_null { DecodeStep::NullValue(kind) } else { DecodeStep::Read(kind) }),
        },
{
    match table.lookup(key, prop_index) {
        None => DecodeStep::Unknown,
        Some(kind) => {
            if value_is_null {
                DecodeStep::NullValue(kind)
            } else {
                DecodeStep::Read(kind)
            }
        },
    }
}

/// The variant a coerce handler returned, without its payload.
#[derive(Clone, Copy, Debug, PartialEq, Eq)]
pub enum CoercedKind {
    Unchanged,
    Int32,
    UInt32,
    Float,
    Double,
    Bool,
    Thickness,
    Color,
    Rect,
    Point,
    Size,
    Vector,
}

impl CoercedKind {
    /// The property type a coerced value of this variant is written as;
    /// `None` for [`CoercedKind::Unchanged`].
    pub open spec fn target(self) -> Option<PropType> {
        match self {
            CoercedKind::Unchanged => None,
            CoercedKind::Int32 => Some(PropType::Int32),
            CoercedKind::UInt32 => Some(PropType::UInt32),
            CoercedKind::Float => Some(PropType::Float),
            CoercedKind::Double => Some(PropType::Double),
            CoercedKind::Bool => Some(PropType::Bool),
            CoercedKind::Thickness => Some(PropType::Thickness),
            CoercedKind::Color => Some(PropType::Color),
            CoercedKind::Rect => Some(PropType::Rect),
            CoercedKind::Point => Some(PropType::Point),
            CoercedKind::Size => Some(PropType::Size),
            CoercedKind::Vector => Some(PropType::Vector),
        }
    }
}

/// Whether a coerced value is written back: only when the property has a
/// recorded type and the value's variant names exactly that type. On a
/// mismatch, or for [`CoercedKind::Unchanged`], the pre-coercion value passes
/// through.
pub fn coerce_writes(kind: Option<PropType>, coerced: CoercedKind) -> (r: bool)
    ensures
        r == (kind is Some && coerced.target() == kind),
{
    match (kind, coerced) {
        (Some(PropType::Int32), CoercedKind::Int32) => true,
        (Some(PropType::UInt32), CoercedKind::UInt32) => true,
        (Some(PropType::Float), CoercedKind::Float) => true,
        (Some(PropType::Double), CoercedKind::Double) => true,
        (Some(PropType::Bool), CoercedKind::Bool) => true,
        (Some(PropType::Thickness), CoercedKind::Thickness) => true,
        (Some(PropType::Color), CoercedKind::Color) => true,
        (Some(PropType::Rect), CoercedKind::Rect) => true,
        (Some(PropType::Point), CoercedKind::Point) => true,
        (Some(PropType::Size), CoercedKind::Size) => true,
        (Some(PropType::Vector), CoercedKind::Vector) => true,
        _ => false,
    }
}


/// A coerce handler's value is written back exactly when its variant is the
/// one named after the property's registered type: for every coercible type
/// a value of that very type is written, [`CoercedKind::Unchanged`] never is,
/// no variant is written to a property of another type, and nothing is written
/// for a property without a recorded type.
pub proof fn lemma_coerce_writes_matching_variant(k: CoercedKind, t: PropType)
    ensures
        CoercedKind::Int32.target() == Some(PropType::Int32),
        CoercedKind::UInt32.target() == Some(PropType::UInt32),
        CoercedKind::Float.target() == Some(PropType::Float),
        CoercedKind::Double.target() == Some(PropType::Double),
        CoercedKind::Bool.target() == Some(PropType::Bool),
        CoercedKind::Thickness.target() == Some(PropType::Thickness),
        CoercedKind::Color.target() == Some(PropType::Color),
        CoercedKind::Rect.target() == Some(PropType::Rect),
        CoercedKind::Point.target() == Some(PropType::Point),
        CoercedKind::Size.target() == Some(PropType::Size),
        CoercedKind::Vector.target() == Some(PropType::Vector),
        CoercedKind::Unchanged.target() is None,
        k.target() == Some(t) ==> k.target() != Some(PropType::String) && k.target() != Some(PropType::Enum)
            && k.target() != Some(PropType::ImageSource) && k.target() != Some(PropType::BaseComponent),
        forall|a: CoercedKind, b: CoercedKind| a.target() is Some && a.target() == b.target() ==> a == b,
{
}

} // verus!
