use vstd::prelude::*;

verus! {

/// A key together with the modifier keys held down with it.
#[derive(Clone, Copy, Debug, PartialEq, Eq, Structural)]
pub struct KeyCombo {
    pub modifiers: u32,
    pub keysym: u32,
}

/// What a bound key does to the manager.
#[derive(Clone, Copy, Debug, PartialEq, Eq, Structural)]
pub enum KeyAction {
    CloseWindow,
    FocusNext,
    FocusPrevious,
    ShuffleNext,
    ShufflePrevious,
    LayoutNext,
    /// Runs the external command with this index in the launcher's table.
    Spawn(usize),
}

#[derive(Clone, Copy, Debug, PartialEq, Eq, Structural)]
pub struct KeyBinding {
    pub combo: KeyCombo,
    pub action: KeyAction,
}

/// The action of the first binding of `combo`, if any.
pub open spec fn bound_action(keys: Seq<KeyBinding>, combo: KeyCombo) -> Option<KeyAction>
    decreases keys.len(),
{
    if keys.len() == 0 {
        None
    } else if keys[0].combo == combo {
        Some(keys[0].action)
    } else {
        bound_action(keys.drop_first(), combo)
    }
}

/// The action bound to `combo`, if any; the first binding wins.
pub fn lookup(keys: &Vec<KeyBinding>, combo: KeyCombo) -> (r: Option<KeyAction>)
    ensures
        r == bound_action(keys@, combo),
{
    let mut i: usize = 0;
    assert(keys@.subrange(0, keys@.len() as int) =~= keys@);
    while i < keys.len()
        invariant
            i <= keys@.len(),
            bound_action(keys@, combo) == bound_action(keys@.subrange(i as int, keys@.len() as int), combo),
        decreases keys@.len() - i,
    {
        let ghost rest = keys@.subrange(i as int, keys@.len() as int);
        assert(rest.drop_first() =~= keys@.subrange(i + 1, keys@.len() as int));
        if keys[i].combo == combo {
            return Some(keys[i].action);
        }
        i = i + 1;
    }
    assert(keys@.subrange(i as int, keys@.len() as int).len() == 0);
    None
}

} // verus!
