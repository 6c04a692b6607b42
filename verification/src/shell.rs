use vstd::prelude::*;
use crate::plugin::Plugin;

verus! {

/// The application shell under construction: the plugins attached so far,
/// in registration order. Once assembled, the shell is handed to the host
/// event loop together with the application context.
pub struct ShellBuilder {
    plugins: Vec<Plugin>,
}

impl View for ShellBuilder {
    type V = Seq<Plugin>;

    closed spec fn view(&self) -> Seq<Plugin> {
        self.plugins@
    }
}

impl ShellBuilder {
    /// A fresh shell with no plugins attached.
    pub fn new() -> (r: Self)
        ensures
            r@ == Seq::<Plugin>::empty(),
    {
        ShellBuilder { plugins: Vec::new() }
    }

    /// Attach one plugin after those already registered.
    pub fn plugin(self, p: Plugin) -> (r: Self)
        ensures
            r@ == self@.push(p),
    {
        let mut plugins = self.plugins;
        plugins.push(p);
        ShellBuilder { plugins }
    }

    /// Attach every plugin of `list`, in order, after those already
    /// registered.
    pub fn register_all(self, list: &Vec<Plugin>) -> (r: Self)
        ensures
            r@ == self@ + list@,
    {
        let ghost initial: Seq<Plugin> = self@;
        let mut shell = self;
        let mut i: usize = 0;
        while i < list.len()
            invariant
                i <= list.len(),
                shell@ == initial + list@.subrange(0, i as int),
            decreases list.len() - i,
        {
            shell = shell.plugin(list[i]);
            proof {
                assert(list@.subrange(0, i as int).push(list@[i as int]) =~= list@.subrange(
                    0,
                    i + 1,
                ));
            }
            i = i + 1;
        }
        proof {
            assert(initial + list@.subrange(0, list@.len() as int) =~= initial + list@);
        }
        shell
    }

    /// How many plugins are registered.
    pub fn plugin_count(&self) -> (r: usize)
        ensures
            r == self@.len(),
    {
        self.plugins.len()
    }

    /// The registered plugins, in order.
    pub fn plugins(&self) -> (r: &Vec<Plugin>)
        ensures
            r@ == self@,
    {
        &self.plugins
    }
}

} // verus!
