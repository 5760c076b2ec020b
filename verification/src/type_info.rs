use vstd::prelude::*;

verus! {

/// The byte shape of one concrete type: size in bytes and alignment.
///
/// Mirrors the usual allocation-layout pair. A layout is valid when the
/// alignment is a nonzero power of two.
#[derive(Debug, Copy, Clone, Eq, PartialEq, Structural)]
pub struct Layout {
    pub size: usize,
    pub align: usize,
}

/// A valid alignment is nonzero and a power of two.
pub open spec fn valid_layout(size: usize, align: usize) -> bool {
    align >= 1 && align & ((align - 1) as usize) == 0
}

impl Layout {
    pub fn new(size: usize, align: usize) -> (r: Layout)
        requires
            valid_layout(size, align),
        ensures
            r.size == size,
            r.align == align,
    {
        Layout { size, align }
    }

    /// Checked constructor: succeeds exactly on valid layouts.
    pub fn from_size_align(size: usize, align: usize) -> (r: Option<Layout>)
        ensures
            match r {
                Some(l) => valid_layout(size, align) && l.size == size && l.align == align,
                None => !valid_layout(size, align),
            },
    {
        if align >= 1 && align & (align - 1) == 0 {
            Some(Layout { size, align })
        } else {
            None
        }
    }

    pub fn size(self) -> (r: usize)
        ensures
            r == self.size,
    {
        self.size
    }

    pub fn align(self) -> (r: usize)
        ensures
            r == self.align,
    {
        self.align
    }

    pub open spec fn is_valid(self) -> bool {
        valid_layout(self.size, self.align)
    }
}

/// How to destroy one type-erased value.
///
/// Running a destructor needs type-erased memory access, which belongs to the
/// storage layer; the registry only records which destructor applies. A hook
/// value names a destructor registered with that outside layer, and the
/// caller guarantees that the named destructor matches the recorded layout.
#[derive(Debug, Copy, Clone, Eq, PartialEq, Structural)]
pub enum DropFn {
    /// Dropping a value of the type is a no-op.
    NoOp,
    /// Run the destructor registered under this handle.
    Hook(u64),
}

/// Everything the registry needs to know about one statically known type:
/// its process-wide type key, a human-readable name, its byte layout, its
/// destructor, and whether values may be shared and moved across threads.
///
/// A process-wide type key is a stable integer that is unique per concrete
/// static type; the embedding program assigns them. Keeping the key explicit
/// lets native and dynamically defined types share one id space.
#[derive(Debug)]
pub struct TypeInfo {
    pub type_id: u64,
    pub name: String,
    pub layout: Layout,
    pub drop: DropFn,
    pub is_send_and_sync: bool,
}

impl TypeInfo {
    /// Describe a thread-safe statically known type.
    pub fn of(type_id: u64, name: String, layout: Layout, drop: DropFn) -> (r: TypeInfo)
        ensures
            r.type_id == type_id,
            r.name == name,
            r.layout == layout,
            r.drop == drop,
            r.is_send_and_sync,
    {
        TypeInfo { type_id, name, layout, drop, is_send_and_sync: true }
    }

    /// Describe a statically known type that must stay on one thread.
    pub fn of_non_send_and_sync(type_id: u64, name: String, layout: Layout, drop: DropFn) -> (r:
        TypeInfo)
        ensures
            r.type_id == type_id,
            r.name == name,
            r.layout == layout,
            r.drop == drop,
            !r.is_send_and_sync,
    {
        TypeInfo { type_id, name, layout, drop, is_send_and_sync: false }
    }

    pub fn type_id(&self) -> (r: u64)
        ensures
            r == self.type_id,
    {
        self.type_id
    }

    pub fn name(&self) -> (r: &str)
        ensures
            r@ == self.name@,
    {
        self.name.as_str()
    }

    pub fn layout(&self) -> (r: Layout)
        ensures
            r == self.layout,
    {
        self.layout
    }

    pub fn drop(&self) -> (r: DropFn)
        ensures
            r == self.drop,
    {
        self.drop
    }

    pub fn is_send_and_sync(&self) -> (r: bool)
        ensures
            r == self.is_send_and_sync,
    {
        self.is_send_and_sync
    }
}

} // verus!
