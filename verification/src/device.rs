use vstd::prelude::*;

use crate::action::{same_action, Action};
use crate::route::RouteConfig;

verus! {

/// The environment a device runs on.
#[derive(Debug, Clone, Copy, PartialEq, Eq, Structural)]
pub enum DeviceEnvironment {
    /// An operating system.
    Os,
    /// An `ESP32` board.
    Esp32,
}

/// A [`Device`] kind.
#[derive(Debug, Clone, Copy, PartialEq, Eq, Structural)]
pub enum DeviceKind {
    /// A device of unknown kind.
    Unknown,
    /// Light.
    Light,
    /// Fridge.
    Fridge,
}

/// The data describing a device: its kind, its main route and the
/// configurations of its routes.
#[derive(Debug)]
pub struct DeviceData<'a> {
    /// Kind.
    pub kind: DeviceKind,
    /// Main device route.
    pub main_route: &'static str,
    /// The configurations of the routes of the device, in order.
    pub route_configs: Vec<RouteConfig<'a>>,
}

/// The default main route of a device.
pub const DEFAULT_MAIN_ROUTE: &'static str = "/device";

/// The default main route of a light.
pub const LIGHT_MAIN_ROUTE: &'static str = "/light";

/// Whether an action that is the same as `a` occurs in `s`.
pub open spec fn has_action<T>(s: Seq<Action<T>>, a: Action<T>) -> bool {
    exists|i: int| 0 <= i < s.len() && same_action(s[i], a)
}

/// The actions of `s` after adding `a`: an action that is the same as one
/// already present is not added.
pub open spec fn actions_insert<T>(s: Seq<Action<T>>, a: Action<T>) -> Seq<Action<T>> {
    if has_action(s, a) { s } else { s.push(a) }
}

/// The actions of `s` after adding each action of `t` in turn.
pub open spec fn actions_insert_all<T>(s: Seq<Action<T>>, t: Seq<Action<T>>) -> Seq<Action<T>>
    decreases t.len(),
{
    if t.len() == 0 {
        s
    } else {
        actions_insert(actions_insert_all(s, t.drop_last()), t.last())
    }
}

/// Adding actions keeps the actions already present, at the front, in
/// their order.
pub proof fn law_insert_all_keeps_prefix<T>(s: Seq<Action<T>>, t: Seq<Action<T>>)
    ensures
        actions_insert_all(s, t).len() >= s.len(),
        actions_insert_all(s, t).take(s.len() as int) == s,
    decreases t.len(),
{
    if t.len() == 0 {
        assert(s.take(s.len() as int) =~= s);
    } else {
        law_insert_all_keeps_prefix(s, t.drop_last());
        let u = actions_insert_all(s, t.drop_last());
        if !has_action(u, t.last()) {
            assert(u.push(t.last()).take(s.len() as int) =~= u.take(s.len() as int));
        }
    }
}

/// A light device starts with its turn on action, then its turn off
/// action, whatever other actions it has, when the two are not the same
/// action.
pub proof fn law_light_starts_with_on_off<T>(on: Action<T>, off: Action<T>, others: Seq<Action<T>>)
    requires
        !same_action(on, off),
    ensures
        actions_insert_all(actions_insert(actions_insert(Seq::empty(), on), off), others)[0] == on,
        actions_insert_all(actions_insert(actions_insert(Seq::empty(), on), off), others)[1] == off,
{
    let start = actions_insert(actions_insert(Seq::empty(), on), off);
    assert(actions_insert(Seq::empty(), on) == seq![on]);
    assert(!has_action(seq![on], off)) by {
        if has_action(seq![on], off) {
            let i = choose|i: int| 0 <= i < 1 && same_action(seq![on][i], off);
            assert(seq![on][i] == on);
        }
    }
    assert(start == seq![on, off]);
    law_insert_all_keeps_prefix(start, others);
    let r = actions_insert_all(start, others);
    assert(r.take(2)[0] == r[0]);
    assert(r.take(2)[1] == r[1]);
}

/// Whether no two actions of `s` are the same action.
pub open spec fn distinct_actions<T>(s: Seq<Action<T>>) -> bool {
    forall|i: int, j: int| 0 <= i < s.len() && 0 <= j < s.len() && i != j ==> !same_action(#[trigger] s[i], #[trigger] s[j])
}

/// The route of an action on a device: the main route of the device and
/// the route of the action, joined by a slash.
pub open spec fn action_route(main_route: Seq<char>, route: Seq<char>) -> Seq<char> {
    main_route + seq!['/'] + route
}

/// The abstract state of a [`Device`].
pub struct DeviceView<T> {
    /// Kind.
    pub kind: DeviceKind,
    /// Main server route for device actions.
    pub main_route: Seq<char>,
    /// All device actions.
    pub actions: Seq<Action<T>>,
}

/// A general smart home device.
#[derive(Debug)]
pub struct Device<T> {
    // Kind.
    kind: DeviceKind,
    // Main server route for device actions.
    main_route: &'static str,
    // All device actions.
    actions: Vec<Action<T>>,
}

impl<T> View for Device<T> {
    type V = DeviceView<T>;

    closed spec fn view(&self) -> DeviceView<T> {
        DeviceView { kind: self.kind, main_route: self.main_route@, actions: self.actions@ }
    }
}

impl<T> Device<T> {
    #[verifier::type_invariant]
    spec fn distinct(self) -> bool {
        distinct_actions(self.actions@)
    }

    /// Creates a new [`Device`] instance.
    pub fn new(kind: DeviceKind) -> (r: Self)
        ensures
            r@.kind == kind,
            r@.main_route == DEFAULT_MAIN_ROUTE@,
            r@.actions == Seq::<Action<T>>::empty(),
    {
        Device { kind, main_route: DEFAULT_MAIN_ROUTE, actions: Vec::new() }
    }

    /// Sets a new main route.
    pub fn main_route(self, main_route: &'static str) -> (r: Self)
        ensures
            r@.kind == self@.kind,
            r@.main_route == main_route@,
            r@.actions == self@.actions,
    {
        proof {
            use_type_invariant(&self);
        }
        let mut r = self;
        r.main_route = main_route;
        r
    }

    /// Adds an action, unless the device already has the same action.
    pub fn add_action(self, device_action: Action<T>) -> (r: Self)
        ensures
            r@.kind == self@.kind,
            r@.main_route == self@.main_route,
            r@.actions == actions_insert(self@.actions, device_action),
    {
        let mut r = self;
        r.add_action_as_reference(device_action);
        r
    }

    // Adds an action, unless the device already has the same action.
    fn add_action_as_reference(&mut self, device_action: Action<T>)
        ensures
            final(self)@.kind == old(self)@.kind,
            final(self)@.main_route == old(self)@.main_route,
            final(self)@.actions == actions_insert(old(self)@.actions, device_action),
    {
        proof {
            use_type_invariant(&*self);
        }
        let mut i: usize = 0;
        while i < self.actions.len()
            invariant
                0 <= i <= self.actions@.len(),
                forall|j: int| 0 <= j < i ==> !same_action(self.actions@[j], device_action),
            decreases self.actions@.len() - i,
        {
            if self.actions[i].same_action(&device_action) {
                return;
            }
            i = i + 1;
        }
        let mut actions = Vec::new();
        std::mem::swap(&mut actions, &mut self.actions);
        let ghost before = actions@;
        actions.push(device_action);
        assert(distinct_actions(actions@)) by {
            assert forall|a: int, b: int|
                0 <= a < actions@.len() && 0 <= b < actions@.len() && a != b
                implies !same_action(#[trigger] actions@[a], #[trigger] actions@[b]) by {
                if a == before.len() {
                    assert(actions@[b] == before[b]);
                } else if b == before.len() {
                    assert(actions@[a] == before[a]);
                } else {
                    assert(actions@[a] == before[a] && actions@[b] == before[b]);
                }
            }
        }
        self.actions = actions;
    }

    /// Returns the actions of the device; no two of them are the same
    /// action.
    pub fn actions(&self) -> (r: &[Action<T>])
        ensures
            r@ == self@.actions,
            distinct_actions(self@.actions),
    {
        proof {
            use_type_invariant(self);
        }
        self.actions.as_slice()
    }

    /// Returns the kind of the device.
    pub fn kind(&self) -> (r: DeviceKind)
        ensures
            r == self@.kind,
    {
        self.kind
    }

    /// Returns the main route of the device.
    pub fn get_main_route(&self) -> (r: &'static str)
        ensures
            r@ == self@.main_route,
    {
        self.main_route
    }

    /// Returns the server route of the action at position `index`: the main
    /// route of the device and the route of the action, joined by a slash.
    pub fn action_route(&self, index: usize) -> (r: String)
        requires
            index < self@.actions.len(),
        ensures
            r@ == action_route(self@.main_route, self@.actions[index as int].route@),
    {
        let mut s = String::from_str(self.main_route);
        s.append("/");
        s.append(self.actions[index].route);
        proof {
            reveal_strlit("/");
        }
        s
    }
}

/// The abstract state of a [`Light`].
pub struct LightView<T> {
    /// Turn light on action.
    pub turn_light_on: Action<T>,
    /// Turn light off action.
    pub turn_light_off: Action<T>,
    /// Main server route for light actions.
    pub main_route: Seq<char>,
    /// Other light actions.
    pub actions: Seq<Action<T>>,
}

/// A smart home light.
///
/// The default main server route for a light is `/light`.
/// If a smart home needs more lights, each light **MUST** provide a
/// **different** main route in order to be registered.
#[derive(Debug)]
pub struct Light<T> {
    // Turn light on action.
    turn_light_on: Action<T>,
    // Turn light off action.
    turn_light_off: Action<T>,
    // Main server route for light actions.
    main_route: &'static str,
    // Other light actions.
    actions: Device<T>,
}

impl<T> View for Light<T> {
    type V = LightView<T>;

    closed spec fn view(&self) -> LightView<T> {
        LightView {
            turn_light_on: self.turn_light_on,
            turn_light_off: self.turn_light_off,
            main_route: self.main_route@,
            actions: self.actions@.actions,
        }
    }
}

impl<T> Light<T> {
    /// Creates a new [`Light`] instance.
    pub fn new(turn_light_on: Action<T>, turn_light_off: Action<T>) -> (r: Self)
        ensures
            r@.turn_light_on == turn_light_on,
            r@.turn_light_off == turn_light_off,
            r@.main_route == LIGHT_MAIN_ROUTE@,
            r@.actions == Seq::<Action<T>>::empty(),
    {
        Light { turn_light_on, turn_light_off, main_route: LIGHT_MAIN_ROUTE, actions: Device::new(DeviceKind::Light) }
    }

    /// Sets a new main route.
    pub fn main_route(self, main_route: &'static str) -> (r: Self)
        ensures
            r@ == (LightView { main_route: main_route@, ..self@ }),
    {
        let mut r = self;
        r.main_route = main_route;
        r
    }

    /// Adds a light action, unless the light already has the same action
    /// among its other actions.
    pub fn add_action(self, light_action: Action<T>) -> (r: Self)
        ensures
            r@ == (LightView { actions: actions_insert(self@.actions, light_action), ..self@ }),
    {
        let Light { turn_light_on, turn_light_off, main_route, actions } = self;
        Light { turn_light_on, turn_light_off, main_route, actions: actions.add_action(light_action) }
    }

    /// Builds a new [`Device`]: a light with the main route of this light,
    /// its turn on and turn off actions, then its other actions.
    pub fn build(self) -> (r: Device<T>)
        ensures
            r@.kind == DeviceKind::Light,
            r@.main_route == self@.main_route,
            r@.actions == actions_insert_all(
                actions_insert(actions_insert(Seq::empty(), self@.turn_light_on), self@.turn_light_off),
                self@.actions,
            ),
    {
        let ghost others = self@.actions;
        let Light { turn_light_on, turn_light_off, main_route, actions } = self;
        let mut device = Device::new(DeviceKind::Light)
            .main_route(main_route)
            .add_action(turn_light_on)
            .add_action(turn_light_off);
        let ghost start = device@.actions;
        let mut rest = actions.actions;
        let mut i: usize = 0;
        let count = rest.len();
        assert(others.skip(0) == others);
        while rest.len() > 0
            invariant
                0 <= i <= others.len(),
                others.len() == count,
                rest@ == others.skip(i as int),
                device@.kind == DeviceKind::Light,
                device@.main_route == main_route@,
                device@.actions == actions_insert_all(start, others.take(i as int)),
            decreases rest@.len(),
        {
            let action = rest.remove(0);
            proof {
                assert(action == others[i as int]);
                assert(others.take(i + 1).drop_last() == others.take(i as int));
                assert(others.take(i + 1).last() == others[i as int]);
            }
            device.add_action_as_reference(action);
            i = i + 1;
            assert(rest@ == others.skip(i as int));
        }
        assert(others.take(i as int) == others);
        device
    }
}

}
