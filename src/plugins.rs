use vstd::prelude::*;

verus! {

/// A capability module that the application shell activates at launch.
#[derive(Clone, Copy, Debug, PartialEq, Eq, Structural)]
pub enum Plugin {
    Opener,
    Fs,
    Dialog,
    Store,
    Sql,
    Notification,
    DeepLink,
    Http,
}

/// The plugins of a launch, in the order in which they are registered.
pub open spec fn plugin_order() -> Seq<Plugin> {
    seq![
        Plugin::Opener,
        Plugin::Fs,
        Plugin::Dialog,
        Plugin::Store,
        Plugin::Sql,
        Plugin::Notification,
        Plugin::DeepLink,
        Plugin::Http,
    ]
}

/// The plugins to register, in order.
pub fn plugins() -> (r: Vec<Plugin>)
    ensures
        r@ == plugin_order(),
{
    let r = vec![
        Plugin::Opener,
        Plugin::Fs,
        Plugin::Dialog,
        Plugin::Store,
        Plugin::Sql,
        Plugin::Notification,
        Plugin::DeepLink,
        Plugin::Http,
    ];
    assert(r@ =~= plugin_order());
    r
}

/// The plugin registered in position `i` of a launch.
pub fn plugin_at(i: usize) -> (r: Plugin)
    requires
        i < plugin_order().len(),
    ensures
        r == plugin_order()[i as int],
{
    match i {
        0 => Plugin::Opener,
        1 => Plugin::Fs,
        2 => Plugin::Dialog,
        3 => Plugin::Store,
        4 => Plugin::Sql,
        5 => Plugin::Notification,
        6 => Plugin::DeepLink,
        _ => Plugin::Http,
    }
}

} // verus!
