//! A one-time initialization cell.
//!
//! [`InitCell`] holds storage for a value that may not exist yet: the cell is
//! created empty, filled exactly once by an explicit initialization step, and
//! behaves as an ordinary value from then on. This is the shape of a global
//! that cannot run its constructor at declaration time but must be freely
//! readable afterwards.
//!
//! The hazard of such a primitive is access before initialization. Here that
//! obligation is not left to convention: whether the storage holds a value is
//! part of the cell's logical state (its view), every accessor demands a proof
//! of initialization in its `requires`, and the verifier checks that proof at
//! each call site. Reads before the first write are ruled out statically, at
//! no runtime cost beyond the storage itself.

use vstd::prelude::*;

verus! {

use core::cmp::Ordering;
use vstd::std_specs::cmp::PartialEqSpec;
use vstd::std_specs::cmp::PartialOrdSpec;

/// Storage for a value of type `T` that starts out empty and is filled by an
/// explicit initialization step.
///
/// The view of a cell is `Option<T>`: `None` while the cell is uninitialized,
/// `Some(v)` once `v` has been stored. Initialization is a distinct operation
/// from replacement: [`InitCell::init`] performs the first write into empty
/// storage, while [`InitCell::set`] overwrites an existing value, disposing of
/// the old one.
///
/// `Ord` is derived: on initialized cells the derived comparison is the
/// comparison of the contained values, matching [`PartialOrd`] below.
#[derive(Ord)]
pub struct InitCell<T> {
    storage: Option<T>,
}

impl<T> View for InitCell<T> {
    type V = Option<T>;

    closed spec fn view(&self) -> Option<T> {
        self.storage
    }
}

impl<T> InitCell<T> {
    /// True when the cell holds a value: every access requires this.
    pub open spec fn is_initialized(&self) -> bool {
        self@ is Some
    }

    /// The value the cell holds, meaningful only when it is initialized.
    pub open spec fn stored(&self) -> T
        recommends
            self.is_initialized(),
    {
        self@->Some_0
    }

    /// Creates a new uninitialized cell.
    ///
    /// The cell must be initialized before it is accessed; each accessor's
    /// `requires` enforces that order.
    pub fn new() -> (cell: Self)
        ensures
            cell@ == None::<T>,
    {
        InitCell { storage: None }
    }

    /// Creates a new initialized cell. Unlike [`InitCell::new`], the result
    /// can be read immediately.
    pub fn initialized(x: T) -> (cell: Self)
        ensures
            cell@ == Some(x),
    {
        InitCell { storage: Some(x) }
    }

    /// Consumes the cell and returns the contained value, transferring
    /// ownership to the caller; nothing is disposed of by this call.
    pub fn into_inner(cell: Self) -> (x: T)
        requires
            cell.is_initialized(),
        ensures
            cell@ == Some(x),
    {
        cell.storage.unwrap()
    }

    /// Initializes the cell: the first write into previously empty storage.
    ///
    /// This is the uninitialized-to-initialized transition, and it is not a
    /// replacement: it assumes there is no old value to dispose of, so it
    /// demands an uninitialized cell. Overwriting an initialized cell is
    /// [`InitCell::set`]'s job.
    pub fn init(cell: &mut Self, x: T)
        requires
            !old(cell).is_initialized(),
        ensures
            final(cell)@ == Some(x),
    {
        cell.storage = Some(x);
    }

    /// Replaces the value of an initialized cell with `x`, disposing of the
    /// old value as part of the overwrite.
    pub fn set(cell: &mut Self, x: T)
        requires
            old(cell).is_initialized(),
        ensures
            final(cell)@ == Some(x),
    {
        cell.storage = Some(x);
    }

    /// Borrows the contained value for reading.
    pub fn borrow(&self) -> (x: &T)
        requires
            self.is_initialized(),
        ensures
            self@ == Some(*x),
    {
        match &self.storage {
            Some(x) => x,
            None => vstd::pervasive::unreached(),
        }
    }

    /// Borrows the contained value for writing, as an ordinary mutable
    /// reference; the cell afterwards holds whatever the caller leaves
    /// behind the reference.
    pub fn borrow_mut(&mut self) -> (x: &mut T)
        requires
            old(self).is_initialized(),
        ensures
            old(self)@ == Some(*x),
            final(self)@ == Some(*final(x)),
    {
        match &mut self.storage {
            Some(x) => x,
            None => vstd::pervasive::unreached(),
        }
    }
}

/// Equality forwards to the contained values: two initialized cells compare
/// equal exactly when their values do. Two uninitialized cells are equal to
/// each other and unequal to any initialized cell.
impl<T: PartialEq> PartialEq for InitCell<T> {
    fn eq(&self, other: &Self) -> (r: bool) {
        match (&self.storage, &other.storage) {
            (Some(a), Some(b)) => a == b,
            (None, None) => true,
            _ => false,
        }
    }
}

impl<T: PartialEq> vstd::std_specs::cmp::PartialEqSpecImpl for InitCell<T> {
    open spec fn obeys_eq_spec() -> bool {
        T::obeys_eq_spec()
    }

    open spec fn eq_spec(&self, other: &Self) -> bool {
        match (self@, other@) {
            (Some(a), Some(b)) => a.eq_spec(&b),
            (None, None) => true,
            _ => false,
        }
    }
}

impl<T: Eq> Eq for InitCell<T> {}

/// Ordering forwards to the contained values; an uninitialized cell orders
/// before any initialized one.
impl<T: PartialOrd> PartialOrd for InitCell<T> {
    fn partial_cmp(&self, other: &Self) -> (r: Option<Ordering>) {
        match (&self.storage, &other.storage) {
            (Some(a), Some(b)) => a.partial_cmp(b),
            (None, None) => Some(Ordering::Equal),
            (None, Some(_)) => Some(Ordering::Less),
            (Some(_), None) => Some(Ordering::Greater),
        }
    }
}

impl<T: PartialOrd> vstd::std_specs::cmp::PartialOrdSpecImpl for InitCell<T> {
    open spec fn obeys_partial_cmp_spec() -> bool {
        T::obeys_partial_cmp_spec()
    }

    open spec fn partial_cmp_spec(&self, other: &Self) -> Option<Ordering> {
        match (self@, other@) {
            (Some(a), Some(b)) => a.partial_cmp_spec(&b),
            (None, None) => Some(Ordering::Equal),
            (None, Some(_)) => Some(Ordering::Less),
            (Some(_), None) => Some(Ordering::Greater),
        }
    }
}

/// Converting a value into a cell yields an initialized cell holding it.
impl<T> From<T> for InitCell<T> {
    fn from(x: T) -> (cell: Self) {
        InitCell::initialized(x)
    }
}

impl<T> vstd::std_specs::convert::FromSpecImpl<T> for InitCell<T> {
    open spec fn obeys_from_spec() -> bool {
        true
    }

    closed spec fn from_spec(x: T) -> Self {
        InitCell { storage: Some(x) }
    }
}

/// Law: a cell constructed directly in the initialized state reads back the
/// value it was constructed with. Any `cell` that [`InitCell::initialized`]
/// may return for `v`, and any reference that [`InitCell::borrow`] may then
/// hand out, point at a value equal to `v`.
pub proof fn lemma_initialized_read_back<T>(v: T, cell: InitCell<T>, r: &T)
    requires
        call_ensures(InitCell::<T>::initialized, (v,), cell),
        call_ensures(InitCell::<T>::borrow, (&cell,), r),
    ensures
        *r == v,
{
}

/// Law: reading a cell yields exactly the value most recently written into
/// it. Both [`InitCell::init`] and [`InitCell::set`] leave the cell's view at
/// `Some(v)` for the value `v` they stored, so after either write, whatever
/// reference [`InitCell::borrow`] may hand out points at a value equal to `v`.
pub proof fn lemma_read_after_write<T>(cell: InitCell<T>, v: T, r: &T)
    requires
        cell@ == Some(v),
        call_ensures(InitCell::<T>::borrow, (&cell,), r),
    ensures
        *r == v,
{
}

/// Law: extracting a cell returns exactly the value it held; ownership moves
/// to the caller, so nothing remains behind to be disposed of twice.
pub proof fn lemma_extract_exact<T>(cell: InitCell<T>, v: T, r: T)
    requires
        cell@ == Some(v),
        call_ensures(InitCell::<T>::into_inner, (cell,), r),
    ensures
        r == v,
{
}

/// Law: equality on initialized cells is equality of the contained values.
pub proof fn lemma_eq_matches_inner<T: PartialEq>(a: InitCell<T>, b: InitCell<T>)
    requires
        a.is_initialized(),
        b.is_initialized(),
    ensures
        a.eq_spec(&b) == a.stored().eq_spec(&b.stored()),
{
}

/// Law: ordering on initialized cells is the ordering of the contained
/// values.
pub proof fn lemma_ordering_matches_inner<T: PartialOrd>(a: InitCell<T>, b: InitCell<T>)
    requires
        a.is_initialized(),
        b.is_initialized(),
    ensures
        a.partial_cmp_spec(&b) == a.stored().partial_cmp_spec(&b.stored()),
{
}

/// The cell that conversion from a bare value produces is initialized and
/// holds exactly that value.
pub broadcast proof fn lemma_from_view<T>(x: T)
    ensures
        (#[trigger] <InitCell<T> as vstd::std_specs::convert::FromSpec<T>>::from_spec(x))@
            == Some(x),
{
}

} // verus!
