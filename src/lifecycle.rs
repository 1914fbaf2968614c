use vstd::prelude::*;

verus! {

/// Where an owning variable stands in its life.
#[derive(Clone, Copy, Debug, PartialEq, Eq, Structural)]
pub enum Stage {
    /// Declared, not yet given a value.
    Uninitialized,
    /// The sole owner of a live buffer.
    Owned,
    /// Its buffer went to another owner; the variable is inert and frees nothing.
    MovedFrom,
    /// Its scope ended and the buffer was freed.
    Released,
}

/// Why an operation on a variable is refused.
#[derive(Clone, Copy, Debug, PartialEq, Eq, Structural)]
pub enum Violation {
    /// The variable was never given a value.
    NotInitialized,
    /// The variable's buffer was moved away.
    UseAfterMove,
    /// The variable's buffer was already freed.
    UseAfterRelease,
    /// The borrow would mix an exclusive reference with any other reference.
    ConflictingBorrow,
    /// The buffer cannot be moved, cloned or freed while a reference is live.
    StillBorrowed,
    /// There is no live reference of that kind to end.
    NoSuchBorrow,
    /// The variable still owns a buffer and cannot take another.
    AlreadyOwned,
    /// The count of shared references is at its limit.
    ReaderLimit,
}

/// The access state of one owning variable: its stage and the references to its
/// buffer that are live.
#[derive(Clone, Copy, Debug, PartialEq, Eq, Structural)]
pub struct Access {
    pub stage: Stage,
    /// Live shared (read-only) references.
    pub readers: u64,
    /// Whether the one exclusive (mutable) reference is live.
    pub writer: bool,
}

impl Access {
    /// References are live only on an owned buffer, and an exclusive one
    /// excludes every other.
    pub open spec fn wf(self) -> bool {
        &&& self.writer ==> self.readers == 0
        &&& (self.writer || self.readers > 0) ==> self.stage == Stage::Owned
    }

    /// No reference to the buffer is live.
    pub open spec fn idle(self) -> bool {
        self.readers == 0 && !self.writer
    }

    pub open spec fn with_stage(stage: Stage) -> Access {
        Access { stage, readers: 0, writer: false }
    }

    /// Why the variable cannot be used at all, if it cannot.
    pub open spec fn unusable(self) -> Option<Violation> {
        match self.stage {
            Stage::Uninitialized => Some(Violation::NotInitialized),
            Stage::Owned => None,
            Stage::MovedFrom => Some(Violation::UseAfterMove),
            Stage::Released => Some(Violation::UseAfterRelease),
        }
    }

    pub open spec fn initialize_spec(self) -> Result<Access, Violation> {
        match self.stage {
            Stage::Uninitialized | Stage::MovedFrom => Ok(Access::with_stage(Stage::Owned)),
            Stage::Owned => Err(Violation::AlreadyOwned),
            Stage::Released => Err(Violation::UseAfterRelease),
        }
    }

    pub open spec fn read_spec(self) -> Result<(), Violation> {
        if let Some(v) = self.unusable() {
            Err(v)
        } else if self.writer {
            Err(Violation::ConflictingBorrow)
        } else {
            Ok(())
        }
    }

    pub open spec fn borrow_shared_spec(self) -> Result<Access, Violation> {
        if let Some(v) = self.unusable() {
            Err(v)
        } else if self.writer {
            Err(Violation::ConflictingBorrow)
        } else if self.readers == u64::MAX {
            Err(Violation::ReaderLimit)
        } else {
            Ok(Access { readers: (self.readers + 1) as u64, ..self })
        }
    }

    pub open spec fn end_shared_spec(self) -> Result<Access, Violation> {
        if let Some(v) = self.unusable() {
            Err(v)
        } else if self.readers == 0 {
            Err(Violation::NoSuchBorrow)
        } else {
            Ok(Access { readers: (self.readers - 1) as u64, ..self })
        }
    }

    pub open spec fn borrow_mut_spec(self) -> Result<Access, Violation> {
        if let Some(v) = self.unusable() {
            Err(v)
        } else if !self.idle() {
            Err(Violation::ConflictingBorrow)
        } else {
            Ok(Access { writer: true, ..self })
        }
    }

    pub open spec fn end_mut_spec(self) -> Result<Access, Violation> {
        if let Some(v) = self.unusable() {
            Err(v)
        } else if !self.writer {
            Err(Violation::NoSuchBorrow)
        } else {
            Ok(Access { writer: false, ..self })
        }
    }

    /// On success: the source's new state and the receiving variable's state.
    pub open spec fn move_out_spec(self) -> Result<(Access, Access), Violation> {
        if let Some(v) = self.unusable() {
            Err(v)
        } else if !self.idle() {
            Err(Violation::StillBorrowed)
        } else {
            Ok((Access::with_stage(Stage::MovedFrom), Access::with_stage(Stage::Owned)))
        }
    }

    /// On success: the state of the new, independent owner.
    pub open spec fn clone_to_new_spec(self) -> Result<Access, Violation> {
        if let Some(v) = self.unusable() {
            Err(v)
        } else if !self.idle() {
            Err(Violation::StillBorrowed)
        } else {
            Ok(Access::with_stage(Stage::Owned))
        }
    }

    /// A moved-from or never-initialized variable frees nothing; an owned one is
    /// freed once, with no reference left live.
    pub open spec fn end_scope_spec(self) -> Result<Access, Violation> {
        match self.stage {
            Stage::Uninitialized | Stage::MovedFrom => Ok(self),
            Stage::Released => Err(Violation::UseAfterRelease),
            Stage::Owned => if self.idle() {
                Ok(Access::with_stage(Stage::Released))
            } else {
                Err(Violation::StillBorrowed)
            },
        }
    }
}

impl Access {
    /// A declared variable that holds no value yet.
    pub fn uninitialized() -> (r: Access)
        ensures
            r == Access::with_stage(Stage::Uninitialized),
    {
        Access { stage: Stage::Uninitialized, readers: 0, writer: false }
    }

    /// A variable that has just constructed its buffer: the sole owner, with no
    /// reference live.
    pub fn owned() -> (r: Access)
        ensures
            r == Access::with_stage(Stage::Owned),
    {
        Access { stage: Stage::Owned, readers: 0, writer: false }
    }

    fn check_usable(&self) -> (r: Option<Violation>)
        ensures
            r == self.unusable(),
    {
        match self.stage {
            Stage::Uninitialized => Some(Violation::NotInitialized),
            Stage::Owned => None,
            Stage::MovedFrom => Some(Violation::UseAfterMove),
            Stage::Released => Some(Violation::UseAfterRelease),
        }
    }

    /// Gives the variable a freshly constructed buffer; a moved-from variable
    /// may be given a new one.
    pub fn initialize(&self) -> (r: Result<Access, Violation>)
        ensures
            r == self.initialize_spec(),
    {
        match self.stage {
            Stage::Uninitialized | Stage::MovedFrom => Ok(Access::owned()),
            Stage::Owned => Err(Violation::AlreadyOwned),
            Stage::Released => Err(Violation::UseAfterRelease),
        }
    }

    /// Reads the buffer through its owner, which any live exclusive reference
    /// forbids.
    pub fn read(&self) -> (r: Result<(), Violation>)
        ensures
            r == self.read_spec(),
    {
        if let Some(v) = self.check_usable() {
            Err(v)
        } else if self.writer {
            Err(Violation::ConflictingBorrow)
        } else {
            Ok(())
        }
    }

    /// Creates one more shared reference.
    pub fn borrow_shared(&self) -> (r: Result<Access, Violation>)
        ensures
            r == self.borrow_shared_spec(),
    {
        if let Some(v) = self.check_usable() {
            Err(v)
        } else if self.writer {
            Err(Violation::ConflictingBorrow)
        } else if self.readers == u64::MAX {
            Err(Violation::ReaderLimit)
        } else {
            Ok(Access { readers: self.readers + 1, ..*self })
        }
    }

    /// Ends one shared reference.
    pub fn end_shared(&self) -> (r: Result<Access, Violation>)
        ensures
            r == self.end_shared_spec(),
    {
        if let Some(v) = self.check_usable() {
            Err(v)
        } else if self.readers == 0 {
            Err(Violation::NoSuchBorrow)
        } else {
            Ok(Access { readers: self.readers - 1, ..*self })
        }
    }

    /// Creates the exclusive reference, which no other live reference allows.
    pub fn borrow_mut(&self) -> (r: Result<Access, Violation>)
        ensures
            r == self.borrow_mut_spec(),
    {
        if let Some(v) = self.check_usable() {
            Err(v)
        } else if self.readers != 0 || self.writer {
            Err(Violation::ConflictingBorrow)
        } else {
            Ok(Access { writer: true, ..*self })
        }
    }

    /// Ends the exclusive reference.
    pub fn end_mut(&self) -> (r: Result<Access, Violation>)
        ensures
            r == self.end_mut_spec(),
    {
        if let Some(v) = self.check_usable() {
            Err(v)
        } else if !self.writer {
            Err(Violation::NoSuchBorrow)
        } else {
            Ok(Access { writer: false, ..*self })
        }
    }

    /// Moves the buffer to a new owner: on success, the source's new state
    /// (inert) and the receiving variable's state (the sole owner).
    pub fn move_out(&self) -> (r: Result<(Access, Access), Violation>)
        ensures
            r == self.move_out_spec(),
    {
        if let Some(v) = self.check_usable() {
            Err(v)
        } else if self.readers != 0 || self.writer {
            Err(Violation::StillBorrowed)
        } else {
            Ok((Access { stage: Stage::MovedFrom, readers: 0, writer: false }, Access::owned()))
        }
    }

    /// Clones the buffer into a new owner, leaving the source as it was: on
    /// success, the new owner's state.
    pub fn clone_to_new(&self) -> (r: Result<Access, Violation>)
        ensures
            r == self.clone_to_new_spec(),
    {
        if let Some(v) = self.check_usable() {
            Err(v)
        } else if self.readers != 0 || self.writer {
            Err(Violation::StillBorrowed)
        } else {
            Ok(Access::owned())
        }
    }

    /// Closes the owner's scope, freeing its buffer if it still owns one.
    pub fn end_scope(&self) -> (r: Result<Access, Violation>)
        ensures
            r == self.end_scope_spec(),
    {
        match self.stage {
            Stage::Uninitialized | Stage::MovedFrom => Ok(*self),
            Stage::Released => Err(Violation::UseAfterRelease),
            Stage::Owned => if self.readers == 0 && !self.writer {
                Ok(Access { stage: Stage::Released, readers: 0, writer: false })
            } else {
                Err(Violation::StillBorrowed)
            },
        }
    }
}

/// After a move, the source variable is inert: every use of it, every borrow,
/// a second move and a clone are refused as a use after move, and the end of its
/// scope frees nothing. The receiving variable is the sole owner, with no
/// reference live.
pub proof fn lemma_moved_from_is_inert(a: Access)
    requires
        a.wf(),
        a.move_out_spec() is Ok,
    ensures
        ({
            let (src, dst) = a.move_out_spec()->Ok_0;
            &&& src.wf() && dst.wf()
            &&& src.stage == Stage::MovedFrom
            &&& dst == Access::with_stage(Stage::Owned)
            &&& src.read_spec() == Err::<(), Violation>(Violation::UseAfterMove)
            &&& src.borrow_shared_spec() == Err::<Access, Violation>(Violation::UseAfterMove)
            &&& src.end_shared_spec() == Err::<Access, Violation>(Violation::UseAfterMove)
            &&& src.borrow_mut_spec() == Err::<Access, Violation>(Violation::UseAfterMove)
            &&& src.end_mut_spec() == Err::<Access, Violation>(Violation::UseAfterMove)
            &&& src.move_out_spec() == Err::<(Access, Access), Violation>(Violation::UseAfterMove)
            &&& src.clone_to_new_spec() == Err::<Access, Violation>(Violation::UseAfterMove)
            &&& src.end_scope_spec() == Ok::<Access, Violation>(src)
        }),
{
}

/// At every instant the live references to a buffer are either any number of
/// shared ones or exactly one exclusive one, never a mix: every operation that
/// succeeds on a well-formed state yields a well-formed state, a shared borrow
/// is refused while the exclusive one is live, and an exclusive borrow is
/// refused while any reference is live.
pub proof fn lemma_borrows_stay_exclusive(a: Access)
    requires
        a.wf(),
    ensures
        a.writer ==> a.readers == 0,
        a.writer ==> a.borrow_shared_spec() == Err::<Access, Violation>(
            Violation::ConflictingBorrow,
        ),
        !a.idle() ==> a.borrow_mut_spec() == Err::<Access, Violation>(
            Violation::ConflictingBorrow,
        ),
        a.initialize_spec() is Ok ==> a.initialize_spec()->Ok_0.wf(),
        a.borrow_shared_spec() is Ok ==> a.borrow_shared_spec()->Ok_0.wf(),
        a.end_shared_spec() is Ok ==> a.end_shared_spec()->Ok_0.wf(),
        a.borrow_mut_spec() is Ok ==> a.borrow_mut_spec()->Ok_0.wf(),
        a.end_mut_spec() is Ok ==> a.end_mut_spec()->Ok_0.wf(),
        a.move_out_spec() is Ok ==> a.move_out_spec()->Ok_0.0.wf() && a.move_out_spec()->Ok_0.1.wf(),
        a.clone_to_new_spec() is Ok ==> a.clone_to_new_spec()->Ok_0.wf(),
        a.end_scope_spec() is Ok ==> a.end_scope_spec()->Ok_0.wf(),
{
}

/// An exclusive reference created and ended in an inner scope leaves the owner
/// exactly as it was, so a new exclusive reference can be created afterwards,
/// with the same state as the first.
pub proof fn lemma_scoped_reborrow(a: Access)
    requires
        a.wf(),
        a.borrow_mut_spec() is Ok,
    ensures
        ({
            let inner = a.borrow_mut_spec()->Ok_0;
            &&& inner.end_mut_spec() == Ok::<Access, Violation>(a)
            &&& a.borrow_mut_spec() == Ok::<Access, Violation>(inner)
        }),
{
}

/// A clone is a second owner, independent of its source: both can be borrowed
/// exclusively, and each is freed at the end of its own scope.
pub proof fn lemma_clone_is_independent(a: Access)
    requires
        a.wf(),
        a.clone_to_new_spec() is Ok,
    ensures
        ({
            let c = a.clone_to_new_spec()->Ok_0;
            &&& c == Access::with_stage(Stage::Owned)
            &&& a.borrow_mut_spec() is Ok && c.borrow_mut_spec() is Ok
            &&& a.end_scope_spec() == Ok::<Access, Violation>(Access::with_stage(Stage::Released))
            &&& c.end_scope_spec() == Ok::<Access, Violation>(Access::with_stage(Stage::Released))
        }),
{
}

/// A buffer is freed at most once: a released variable refuses a second end of
/// scope, and every other use.
pub proof fn lemma_released_once(a: Access)
    requires
        a.wf(),
        a.end_scope_spec() is Ok,
        a.stage == Stage::Owned,
    ensures
        ({
            let r = a.end_scope_spec()->Ok_0;
            &&& r.stage == Stage::Released
            &&& r.end_scope_spec() == Err::<Access, Violation>(Violation::UseAfterRelease)
            &&& r.read_spec() == Err::<(), Violation>(Violation::UseAfterRelease)
            &&& r.initialize_spec() == Err::<Access, Violation>(Violation::UseAfterRelease)
        }),
{
}

} // verus!
