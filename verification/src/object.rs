//! The object model: references, objects, classes and the heap that holds them.
//!
//! The heap holds of each object what the virtual machine itself reads: its
//! class, its instance dictionary and, for a few built-in types, its value.
//! The code behind a type slot and the contents of dictionaries belong to the
//! host that runs the machine.
use vstd::prelude::*;

verus! {

/// The identity of a Python object: two references are the same object if and
/// only if their ids are equal.
#[derive(Clone, Copy, PartialEq, Eq, Structural, Debug, Hash)]
pub struct PyObjectRef {
    pub id: usize,
}

/// A reference to a class.
pub type PyTypeRef = PyObjectRef;

/// A reference to a string object.
pub type PyStrRef = PyObjectRef;

/// A reference to an integer object.
pub type PyIntRef = PyObjectRef;

/// A reference to a dictionary object.
pub type PyDictRef = PyObjectRef;

/// A reference to a code object.
pub type PyCodeRef = PyObjectRef;

/// A reference to an exception object.
pub type PyBaseExceptionRef = PyObjectRef;

/// The result of an operation that can raise.
pub type PyResult<T> = Result<T, PyBaseExceptionRef>;

impl PyObjectRef {
    /// The identity of the object as a number.
    pub fn get_id(&self) -> (id: usize)
        ensures
            id == self.id,
    {
        self.id
    }
}

/// The namespaces that code runs in.
#[derive(Clone, Copy, PartialEq, Eq, Structural, Debug)]
pub struct Scope {
    pub locals: PyDictRef,
    pub globals: PyDictRef,
}

/// A frame: the frame object and the scope that its code runs in.
#[derive(Clone, Copy, PartialEq, Eq, Structural, Debug)]
pub struct FrameRef {
    pub object: PyObjectRef,
    pub scope: Scope,
}

/// A handle of a function that the host keeps behind a type slot.
#[derive(Clone, Copy, PartialEq, Eq, Structural, Debug)]
pub struct SlotFunc {
    pub id: u64,
}

/// The type slots that the machine dispatches through.
#[derive(Clone, Copy, PartialEq, Eq, Structural, Debug)]
pub enum SlotKind {
    Call,
    DescrGet,
    GetAttro,
    Compare,
    Hash,
}

/// The slots that a class fills itself.
#[derive(Clone, Copy, Debug)]
pub struct PyTypeSlots {
    pub call: Option<SlotFunc>,
    pub descr_get: Option<SlotFunc>,
    pub getattro: Option<SlotFunc>,
    pub compare: Option<SlotFunc>,
    pub hash: Option<SlotFunc>,
}

impl PyTypeSlots {
    pub open spec fn spec_get(self, kind: SlotKind) -> Option<SlotFunc> {
        match kind {
            SlotKind::Call => self.call,
            SlotKind::DescrGet => self.descr_get,
            SlotKind::GetAttro => self.getattro,
            SlotKind::Compare => self.compare,
            SlotKind::Hash => self.hash,
        }
    }

    /// The function in a slot.
    pub fn get(&self, kind: SlotKind) -> (slot: Option<SlotFunc>)
        ensures
            slot == self.spec_get(kind),
    {
        match kind {
            SlotKind::Call => self.call,
            SlotKind::DescrGet => self.descr_get,
            SlotKind::GetAttro => self.getattro,
            SlotKind::Compare => self.compare,
            SlotKind::Hash => self.hash,
        }
    }

    pub open spec fn spec_empty() -> PyTypeSlots {
        PyTypeSlots { call: None, descr_get: None, getattro: None, compare: None, hash: None }
    }

    /// No slot is filled.
    pub fn empty() -> (slots: PyTypeSlots)
        ensures
            slots == PyTypeSlots::spec_empty(),
    {
        PyTypeSlots { call: None, descr_get: None, getattro: None, compare: None, hash: None }
    }
}

/// What the machine reads of a class.
pub struct PyType {
    pub name: String,
    /// The method resolution order, the class itself first.
    pub mro: Vec<PyTypeRef>,
    /// The class dictionary; of two entries with one name the earlier counts.
    pub attributes: Vec<(String, PyObjectRef)>,
    pub slots: PyTypeSlots,
}

/// A class, as a value.
pub ghost struct TypeView {
    pub name: Seq<char>,
    pub mro: Seq<PyTypeRef>,
    pub attributes: Seq<(Seq<char>, PyObjectRef)>,
    pub slots: PyTypeSlots,
}

pub open spec fn attributes_view(s: Seq<(String, PyObjectRef)>) -> Seq<(Seq<char>, PyObjectRef)> {
    s.map_values(|p: (String, PyObjectRef)| (p.0@, p.1))
}

impl View for PyType {
    type V = TypeView;

    open spec fn view(&self) -> TypeView {
        TypeView {
            name: self.name@,
            mro: self.mro@,
            attributes: attributes_view(self.attributes@),
            slots: self.slots,
        }
    }
}

/// The value of an object, as far as the machine reads it.
pub enum Payload {
    /// A value that the machine does not read.
    Opaque,
    /// A value that the host keeps under a number of its own.
    Native(u64),
    Bool(bool),
    Int(i128),
    Str(String),
    Tuple(Vec<PyObjectRef>),
    List(Vec<PyObjectRef>),
    Exception(Vec<PyObjectRef>),
    Frame(PyCodeRef),
    Type(PyType),
}

/// The value of an object, as a value.
pub ghost enum PayloadView {
    Opaque,
    Native(u64),
    Bool(bool),
    Int(i128),
    Str(Seq<char>),
    Tuple(Seq<PyObjectRef>),
    List(Seq<PyObjectRef>),
    Exception(Seq<PyObjectRef>),
    Frame(PyCodeRef),
    Type(TypeView),
}

impl View for Payload {
    type V = PayloadView;

    open spec fn view(&self) -> PayloadView {
        match *self {
            Payload::Opaque => PayloadView::Opaque,
            Payload::Native(n) => PayloadView::Native(n),
            Payload::Bool(b) => PayloadView::Bool(b),
            Payload::Int(i) => PayloadView::Int(i),
            Payload::Str(s) => PayloadView::Str(s@),
            Payload::Tuple(v) => PayloadView::Tuple(v@),
            Payload::List(v) => PayloadView::List(v@),
            Payload::Exception(v) => PayloadView::Exception(v@),
            Payload::Frame(c) => PayloadView::Frame(c),
            Payload::Type(t) => PayloadView::Type(t@),
        }
    }
}

/// A Python object.
pub struct PyObject {
    pub class: PyTypeRef,
    pub dict: Option<PyDictRef>,
    pub payload: Payload,
}

/// A Python object, as a value.
pub ghost struct ObjectView {
    pub class: PyTypeRef,
    pub dict: Option<PyDictRef>,
    pub payload: PayloadView,
}

impl View for PyObject {
    type V = ObjectView;

    open spec fn view(&self) -> ObjectView {
        ObjectView { class: self.class, dict: self.dict, payload: self.payload@ }
    }
}

/// The object with id `i` is the `i`-th of the heap. Objects are never removed.
pub struct Heap {
    pub objects: Vec<PyObject>,
}

impl View for Heap {
    type V = Seq<ObjectView>;

    open spec fn view(&self) -> Seq<ObjectView> {
        self.objects@.map_values(|o: PyObject| o@)
    }
}

/// The class `object`, the first object of every heap.
pub open spec fn spec_object_type() -> PyTypeRef {
    PyObjectRef { id: 0 }
}

/// The class of `obj`. A reference to nothing counts as a plain `object`.
pub open spec fn class_of(h: Seq<ObjectView>, obj: PyObjectRef) -> PyTypeRef {
    if obj.id < h.len() {
        h[obj.id as int].class
    } else {
        spec_object_type()
    }
}

/// The instance dictionary of `obj`.
pub open spec fn dict_of(h: Seq<ObjectView>, obj: PyObjectRef) -> Option<PyDictRef> {
    if obj.id < h.len() {
        h[obj.id as int].dict
    } else {
        None
    }
}

/// What `obj` holds.
pub open spec fn payload_of(h: Seq<ObjectView>, obj: PyObjectRef) -> PayloadView {
    if obj.id < h.len() {
        h[obj.id as int].payload
    } else {
        PayloadView::Opaque
    }
}

/// Whether `obj` is a class.
pub open spec fn is_class(h: Seq<ObjectView>, obj: PyObjectRef) -> bool {
    payload_of(h, obj) is Type
}

/// The class that `cls` refers to. What is no class has no name, no base and no
/// attribute.
pub open spec fn type_at(h: Seq<ObjectView>, cls: PyTypeRef) -> TypeView {
    match payload_of(h, cls) {
        PayloadView::Type(t) => t,
        _ => TypeView {
            name: Seq::empty(),
            mro: Seq::empty(),
            attributes: Seq::empty(),
            slots: PyTypeSlots::spec_empty(),
        },
    }
}

/// The entry for `name` in a class dictionary.
pub open spec fn attribute_in(
    attributes: Seq<(Seq<char>, PyObjectRef)>,
    name: Seq<char>,
) -> Option<PyObjectRef>
    decreases attributes.len(),
{
    if attributes.len() == 0 {
        None
    } else if attributes[0].0 == name {
        Some(attributes[0].1)
    } else {
        attribute_in(attributes.drop_first(), name)
    }
}

/// The entry for `name` in the first class of `mro` that has one.
pub open spec fn attribute_in_mro(
    h: Seq<ObjectView>,
    mro: Seq<PyTypeRef>,
    name: Seq<char>,
) -> Option<PyObjectRef>
    decreases mro.len(),
{
    if mro.len() == 0 {
        None
    } else {
        match attribute_in(type_at(h, mro[0]).attributes, name) {
            Some(value) => Some(value),
            None => attribute_in_mro(h, mro.drop_first(), name),
        }
    }
}

/// The attribute `name` of the class `cls`, its own or an inherited one.
pub open spec fn type_attr(h: Seq<ObjectView>, cls: PyTypeRef, name: Seq<char>) -> Option<
    PyObjectRef,
> {
    attribute_in_mro(h, type_at(h, cls).mro, name)
}

/// The attribute `name` of the class of `obj`.
pub open spec fn class_attr(h: Seq<ObjectView>, obj: PyObjectRef, name: Seq<char>) -> Option<
    PyObjectRef,
> {
    type_attr(h, class_of(h, obj), name)
}

/// The function in the slot `kind` of the first class of `mro` that fills it.
pub open spec fn slot_in_mro(
    h: Seq<ObjectView>,
    mro: Seq<PyTypeRef>,
    kind: SlotKind,
) -> Option<SlotFunc>
    decreases mro.len(),
{
    if mro.len() == 0 {
        None
    } else {
        match type_at(h, mro[0]).slots.spec_get(kind) {
            Some(slot) => Some(slot),
            None => slot_in_mro(h, mro.drop_first(), kind),
        }
    }
}

/// The function that the slot `kind` dispatches to for `obj`.
pub open spec fn slot_of(h: Seq<ObjectView>, obj: PyObjectRef, kind: SlotKind) -> Option<SlotFunc> {
    slot_in_mro(h, type_at(h, class_of(h, obj)).mro, kind)
}

/// Whether `subclass` is `cls` or inherits from it.
pub open spec fn is_subclass(h: Seq<ObjectView>, subclass: PyTypeRef, cls: PyTypeRef) -> bool {
    subclass == cls || type_at(h, subclass).mro.contains(cls)
}

/// The name of the class of `obj`.
pub open spec fn class_name(h: Seq<ObjectView>, obj: PyObjectRef) -> Seq<char> {
    type_at(h, class_of(h, obj)).name
}

/// The reference to the next object that is made.
pub open spec fn next_ref(h: Seq<ObjectView>) -> PyObjectRef {
    PyObjectRef { id: h.len() as usize }
}

impl Heap {
    /// A heap without objects.
    pub fn new() -> (heap: Heap)
        ensures
            heap@ == Seq::<ObjectView>::empty(),
    {
        let heap = Heap { objects: Vec::new() };
        assert(heap@ =~= Seq::<ObjectView>::empty());
        heap
    }

    /// Makes an object.
    pub fn new_object(
        &mut self,
        class: PyTypeRef,
        dict: Option<PyDictRef>,
        payload: Payload,
    ) -> (obj: PyObjectRef)
        ensures
            obj == next_ref(old(self)@),
            obj.id == old(self)@.len(),
            final(self)@ == old(self)@.push(
                (ObjectView { class, dict, payload: payload@ }),
            ),
    {
        let id: usize = self.objects.len();
        self.objects.push(PyObject { class, dict, payload });
        assert(self@ =~= old(self)@.push(
            (ObjectView { class, dict, payload: payload@ }),
        ));
        PyObjectRef { id }
    }

    /// The class of an object.
    pub fn class_of(&self, obj: PyObjectRef) -> (class: PyTypeRef)
        ensures
            class == class_of(self@, obj),
    {
        if obj.id < self.objects.len() {
            self.objects[obj.id].class
        } else {
            PyObjectRef { id: 0 }
        }
    }

    /// The instance dictionary of an object.
    pub fn dict_of(&self, obj: PyObjectRef) -> (dict: Option<PyDictRef>)
        ensures
            dict == dict_of(self@, obj),
    {
        if obj.id < self.objects.len() {
            self.objects[obj.id].dict
        } else {
            None
        }
    }

    /// The class behind a reference, if it is one.
    pub fn type_at(&self, cls: PyTypeRef) -> (t: Option<&PyType>)
        ensures
            t is Some <==> is_class(self@, cls),
            t matches Some(t) ==> t@ == type_at(self@, cls),
    {
        if cls.id < self.objects.len() {
            match &self.objects[cls.id].payload {
                Payload::Type(t) => Some(t),
                _ => None,
            }
        } else {
            None
        }
    }

    /// Whether an object is a class.
    pub fn is_class(&self, obj: PyObjectRef) -> (b: bool)
        ensures
            b == is_class(self@, obj),
    {
        self.type_at(obj).is_some()
    }

    /// Looks `name` up in one class dictionary.
    fn attribute_in(attributes: &Vec<(String, PyObjectRef)>, name: &String) -> (value: Option<
        PyObjectRef,
    >)
        ensures
            value == attribute_in(attributes_view(attributes@), name@),
    {
        let ghost view = attributes_view(attributes@);
        let mut i: usize = 0;
        assert(view.skip(0) =~= view);
        while i < attributes.len()
            invariant
                i <= attributes.len(),
                view == attributes_view(attributes@),
                attribute_in(view, name@) == attribute_in(view.skip(i as int), name@),
            decreases attributes.len() - i,
        {
            assert(view.skip(i as int)[0] == view[i as int]);
            if attributes[i].0 == *name {
                return Some(attributes[i].1);
            }
            assert(view.skip(i as int).drop_first() =~= view.skip(i + 1));
            i = i + 1;
        }
        None
    }

    /// The attribute `name` of a class, its own or an inherited one.
    pub fn type_attr(&self, cls: PyTypeRef, name: &String) -> (value: Option<PyObjectRef>)
        ensures
            value == type_attr(self@, cls, name@),
    {
        match self.type_at(cls) {
            None => None,
            Some(t) => {
                let ghost mro = t.mro@;
                let mut i: usize = 0;
                assert(mro.skip(0) =~= mro);
                while i < t.mro.len()
                    invariant
                        i <= t.mro.len(),
                        mro == t.mro@,
                        t@ == type_at(self@, cls),
                        attribute_in_mro(self@, mro, name@) == attribute_in_mro(
                            self@,
                            mro.skip(i as int),
                            name@,
                        ),
                    decreases t.mro.len() - i,
                {
                    assert(mro.skip(i as int)[0] == mro[i as int]);
                    assert(mro.skip(i as int).drop_first() =~= mro.skip(i + 1));
                    if let Some(base) = self.type_at(t.mro[i]) {
                        if let Some(value) = Heap::attribute_in(&base.attributes, name) {
                            return Some(value);
                        }
                    }
                    i = i + 1;
                }
                None
            },
        }
    }

    /// The attribute `name` of the class of an object.
    pub fn get_class_attr(&self, obj: PyObjectRef, name: &String) -> (value: Option<PyObjectRef>)
        ensures
            value == class_attr(self@, obj, name@),
    {
        self.type_attr(self.class_of(obj), name)
    }

    /// The function that a slot dispatches to for an object.
    pub fn slot_of(&self, obj: PyObjectRef, kind: SlotKind) -> (slot: Option<SlotFunc>)
        ensures
            slot == slot_of(self@, obj, kind),
    {
        match self.type_at(self.class_of(obj)) {
            None => None,
            Some(t) => {
                let ghost mro = t.mro@;
                let mut i: usize = 0;
                assert(mro.skip(0) =~= mro);
                while i < t.mro.len()
                    invariant
                        i <= t.mro.len(),
                        mro == t.mro@,
                        t@ == type_at(self@, class_of(self@, obj)),
                        slot_in_mro(self@, mro, kind) == slot_in_mro(
                            self@,
                            mro.skip(i as int),
                            kind,
                        ),
                    decreases t.mro.len() - i,
                {
                    assert(mro.skip(i as int)[0] == mro[i as int]);
                    assert(mro.skip(i as int).drop_first() =~= mro.skip(i + 1));
                    if let Some(base) = self.type_at(t.mro[i]) {
                        if let Some(slot) = base.slots.get(kind) {
                            return Some(slot);
                        }
                    }
                    i = i + 1;
                }
                None
            },
        }
    }

    /// Whether one class is another or inherits from it.
    pub fn is_subclass(&self, subclass: PyTypeRef, cls: PyTypeRef) -> (b: bool)
        ensures
            b == is_subclass(self@, subclass, cls),
    {
        if subclass == cls {
            return true;
        }
        match self.type_at(subclass) {
            None => false,
            Some(t) => {
                let mut i: usize = 0;
                while i < t.mro.len()
                    invariant
                        i <= t.mro.len(),
                        t@ == type_at(self@, subclass),
                        forall|j: int| 0 <= j < i ==> t.mro@[j] != cls,
                    decreases t.mro.len() - i,
                {
                    if t.mro[i] == cls {
                        return true;
                    }
                    i = i + 1;
                }
                false
            },
        }
    }

    /// The name of the class of an object.
    pub fn class_name(&self, obj: PyObjectRef) -> (name: String)
        ensures
            name@ == class_name(self@, obj),
    {
        match self.type_at(self.class_of(obj)) {
            Some(t) => t.name.clone(),
            None => String::new(),
        }
    }
}

} // verus!
