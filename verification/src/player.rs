use vstd::prelude::*;

verus! {

/// The rounds a full magazine holds.
pub const MAGAZINE_SIZE: u8 = 7;

/// The rounds a player carries in reserve at spawn.
pub const RESERVE_AMMO: u8 = 35;

/// The player's weapon and defuse state, as the keys of a frame change it.
#[derive(PartialEq, Eq, Structural, Clone, Copy, Debug)]
pub struct ActionState {
    pub fired: bool,
    /// Rounds in the magazine.
    pub ammo: u8,
    /// Rounds in reserve.
    pub mag: u8,
    pub reloading: bool,
    pub defusing: bool,
}

impl ActionState {
    /// A player who spawns: a full magazine and a full reserve, not firing,
    /// reloading or defusing.
    pub fn new() -> (s: ActionState)
        ensures
            s == (ActionState {
                fired: false,
                ammo: MAGAZINE_SIZE,
                mag: RESERVE_AMMO,
                reloading: false,
                defusing: false,
            }),
    {
        ActionState {
            fired: false,
            ammo: MAGAZINE_SIZE,
            mag: RESERVE_AMMO,
            reloading: false,
            defusing: false,
        }
    }

    /// Whether a marked shot can leave the gun: a round is loaded and no
    /// reload is under way.
    pub fn can_shoot(&self) -> (r: bool)
        ensures
            r == (self.fired && self.ammo > 0 && !self.reloading),
    {
        self.fired && self.ammo > 0 && !self.reloading
    }

    /// Fires one round from the magazine.
    pub fn spend_round(&mut self)
        requires
            old(self).ammo > 0,
        ensures
            *final(self) == (ActionState { ammo: (old(self).ammo - 1) as u8, ..*old(self) }),
    {
        self.ammo = self.ammo - 1;
    }

    /// Whether a reload under way is getting anywhere: the magazine is not
    /// full and the reserve is not empty.
    pub fn reload_progresses(&self) -> (r: bool)
        ensures
            r == (self.reloading && self.ammo < MAGAZINE_SIZE && self.mag > 0),
    {
        self.reloading && self.ammo < MAGAZINE_SIZE && self.mag > 0
    }

    /// Ends a reload: rounds move from the reserve into the magazine until it
    /// is full or the reserve is empty.
    pub fn finish_reload(&mut self)
        requires
            old(self).ammo <= MAGAZINE_SIZE,
        ensures
            final(self).ammo + final(self).mag == old(self).ammo + old(self).mag,
            final(self).ammo == if old(self).ammo + old(self).mag < MAGAZINE_SIZE {
                old(self).ammo + old(self).mag
            } else {
                MAGAZINE_SIZE as int
            },
            !final(self).reloading,
            final(self).fired == old(self).fired,
            final(self).defusing == old(self).defusing,
    {
        let needed = MAGAZINE_SIZE - self.ammo;
        let transfer = if needed < self.mag {
            needed
        } else {
            self.mag
        };
        self.mag = self.mag - transfer;
        self.ammo = self.ammo + transfer;
        self.reloading = false;
    }
}

/// The action keys of a frame.
#[derive(PartialEq, Eq, Structural, Clone, Copy, Debug)]
pub struct ActionKeys {
    /// The defuse key (E) is held.
    pub defuse_down: bool,
    /// The reload key (R) went down this frame.
    pub reload_pressed: bool,
    /// The fire button went down this frame.
    pub fire_pressed: bool,
}

/// How a frame's keys change the player's actions: holding the defuse key on a
/// bomb site starts defusing and releasing it stops (held off a site, it
/// changes nothing); the reload key starts a reload unless one is under way
/// or the magazine is full; the fire button marks a shot.
pub open spec fn actions_after(state: ActionState, on_bomb_site: bool, keys: ActionKeys) -> ActionState {
    ActionState {
        fired: state.fired || keys.fire_pressed,
        ammo: state.ammo,
        mag: state.mag,
        reloading: state.reloading || (keys.reload_pressed && state.ammo < MAGAZINE_SIZE),
        defusing: if keys.defuse_down && on_bomb_site {
            true
        } else if !keys.defuse_down {
            false
        } else {
            state.defusing
        },
    }
}

/// The reload key starts a reload whenever none is under way and the
/// magazine is not full, an empty magazine included; a full magazine never
/// starts one; a reload under way goes on.
pub proof fn reload_key_starts_reload(state: ActionState, on_bomb_site: bool, keys: ActionKeys)
    ensures
        keys.reload_pressed && state.ammo < MAGAZINE_SIZE ==> actions_after(
            state,
            on_bomb_site,
            keys,
        ).reloading,
        !state.reloading && state.ammo >= MAGAZINE_SIZE ==> !actions_after(
            state,
            on_bomb_site,
            keys,
        ).reloading,
        !state.reloading && !keys.reload_pressed ==> !actions_after(state, on_bomb_site, keys).reloading,
        state.reloading ==> actions_after(state, on_bomb_site, keys).reloading,
{
}

/// Defusing happens only on a bomb site with the defuse key held; releasing
/// the key stops it; the keys never change the rounds carried; the fire
/// button always marks a shot.
pub proof fn action_keys_laws(state: ActionState, on_bomb_site: bool, keys: ActionKeys)
    ensures
        actions_after(state, on_bomb_site, keys).defusing ==> keys.defuse_down,
        actions_after(state, on_bomb_site, keys).defusing && !state.defusing ==> on_bomb_site,
        keys.defuse_down && on_bomb_site ==> actions_after(state, on_bomb_site, keys).defusing,
        actions_after(state, on_bomb_site, keys).ammo == state.ammo,
        actions_after(state, on_bomb_site, keys).mag == state.mag,
        keys.fire_pressed ==> actions_after(state, on_bomb_site, keys).fired,
        !keys.fire_pressed ==> actions_after(state, on_bomb_site, keys).fired == state.fired,
{
}

/// Applies a frame's action keys to the player's actions.
pub fn process_action_input(state: &mut ActionState, on_bomb_site: bool, keys: ActionKeys)
    ensures
        *final(state) == actions_after(*old(state), on_bomb_site, keys),
{
    if keys.defuse_down && on_bomb_site {
        state.defusing = true;
    } else if !keys.defuse_down {
        state.defusing = false;
    }
    if keys.reload_pressed && !state.reloading && state.ammo < MAGAZINE_SIZE {
        state.reloading = true;
    }
    if keys.fire_pressed {
        state.fired = true;
    }
}

/// The sound a frame's reload key calls for.
#[derive(PartialEq, Eq, Structural, Clone, Copy, Debug)]
pub enum ReloadCue {
    Silent,
    /// A reload has just started.
    Reload,
    /// A reload was asked for with no rounds left in reserve.
    EmptyGun,
}

/// The sound of a frame's reload: a reload that started this frame is heard;
/// otherwise pressing the reload key, when no reload was under way and the
/// reserve is empty, clicks empty.
pub fn reload_cue(was_reloading: bool, reload_pressed: bool, state: &ActionState) -> (cue: ReloadCue)
    ensures
        cue == if state.reloading && !was_reloading {
            ReloadCue::Reload
        } else if reload_pressed && !was_reloading && state.mag == 0 {
            ReloadCue::EmptyGun
        } else {
            ReloadCue::Silent
        },
{
    if state.reloading && !was_reloading {
        ReloadCue::Reload
    } else if reload_pressed && !was_reloading && state.mag == 0 {
        ReloadCue::EmptyGun
    } else {
        ReloadCue::Silent
    }
}

/// Whether holding the fire button clicks empty: the magazine is empty and no
/// reload is under way.
pub fn dry_fire(state: &ActionState, fire_down: bool) -> (click: bool)
    ensures
        click == (state.ammo == 0 && fire_down && !state.reloading),
{
    state.ammo == 0 && fire_down && !state.reloading
}

} // verus!
