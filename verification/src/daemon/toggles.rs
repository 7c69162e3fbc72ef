//! Plugin toggles: which plugins of a device are switched on, and how that is
//! stored.
use crate::base::store;
use crate::ordered::TextMap;
use crate::plugins::battery;
use crate::plugins::meta;
use crate::plugins::{MetaView, PluginMeta};
use crate::text;
use vstd::prelude::*;

verus! {

/// What a stored toggle says; any other text says nothing.
pub open spec fn toggle_of(stored: Option<Seq<char>>) -> Option<bool> {
    match stored {
        Some(t) if t == "1"@ => Some(true),
        Some(t) if t == "0"@ => Some(false),
        _ => None,
    }
}

/// Whether a plugin is enabled, by the toggle that was stored for it; without
/// one it is as it is by default.
pub open spec fn is_enabled(m: MetaView, stored: Option<Seq<char>>) -> bool {
    match toggle_of(stored) {
        Some(on) => on,
        None => m.default_enabled,
    }
}

/// Whether a plugin is switched on, by the toggles of its device; without one
/// it is as it is by default.
pub open spec fn switched_on(m: MetaView, toggles: Map<Seq<char>, bool>) -> bool {
    if toggles.contains_key(m.name) {
        toggles[m.name]
    } else {
        m.default_enabled
    }
}

/// What optional texts say.
pub open spec fn toggles_view(v: Seq<Option<String>>) -> Seq<Option<Seq<char>>> {
    v.map_values(|t: Option<String>| battery::optional_text(t))
}

/// The toggle at a position of the roster; none where the list has ended.
pub open spec fn toggle_at(stored: Seq<Option<Seq<char>>>, i: int) -> Option<Seq<char>> {
    if 0 <= i < stored.len() {
        stored[i]
    } else {
        None
    }
}

/// The key under which a plugin's toggle is stored.
pub open spec fn plugin_key(device_id: Seq<char>, plugin: Seq<char>) -> Seq<char> {
    "plugin:"@ + device_id + ":"@ + plugin
}

/// The keys under which the toggles of a device's plugins are stored, in the
/// order of the roster.
pub open spec fn plugin_keys_of(device_id: Seq<char>) -> Seq<Seq<char>> {
    meta::roster().map_values(|m: MetaView| plugin_key(device_id, m.name))
}

/// The text that a toggle is stored as.
pub open spec fn toggle_text(enabled: bool) -> Seq<char> {
    if enabled {
        "1"@
    } else {
        "0"@
    }
}

/// What is stored under a device's toggle keys, in the order of the roster.
pub open spec fn stored_toggles(settings: Map<Seq<char>, Seq<char>>, device_id: Seq<char>) -> Seq<
    Option<Seq<char>>,
> {
    plugin_keys_of(device_id).map_values(
        |key: Seq<char>|
            if settings.contains_key(key) {
                Some(settings[key])
            } else {
                None
            },
    )
}

/// The toggles of the first `n` plugins of the roster, by what was stored.
pub open spec fn recalled_first(stored: Seq<Option<Seq<char>>>, n: nat) -> Map<Seq<char>, bool>
    decreases n,
{
    if n == 0 {
        Map::empty()
    } else {
        let before = recalled_first(stored, (n - 1) as nat);
        match toggle_of(toggle_at(stored, n - 1)) {
            Some(on) => before.insert(meta::roster()[n - 1].name, on),
            None => before,
        }
    }
}

/// The toggles of a device, by what was stored, in the order of the roster.
pub open spec fn recalled(stored: Seq<Option<Seq<char>>>) -> Map<Seq<char>, bool> {
    recalled_first(stored, meta::roster().len())
}

/// A plugin of the roster has the toggle that was stored for it.
proof fn lemma_recalled(stored: Seq<Option<Seq<char>>>, n: nat, i: int)
    requires
        0 <= i < meta::roster().len(),
        n <= meta::roster().len(),
    ensures
        ({
            let name = meta::roster()[i].name;
            let toggle = if i < n {
                toggle_of(toggle_at(stored, i))
            } else {
                None
            };
            &&& recalled_first(stored, n).contains_key(name) == toggle is Some
            &&& toggle matches Some(on) ==> recalled_first(stored, n)[name] == on
        }),
    decreases n,
{
    if n > 0 {
        lemma_recalled(stored, (n - 1) as nat, i);
        if i < n - 1 {
            meta::law_names_are_unique(i, n - 1);
        } else if n - 1 < i {
            meta::law_names_are_unique(n - 1, i);
        }
    }
}

/// Only plugins of the roster have toggles that were stored.
proof fn lemma_recalled_names(stored: Seq<Option<Seq<char>>>, n: nat, name: Seq<char>) -> (i: int)
    requires
        n <= meta::roster().len(),
        recalled_first(stored, n).contains_key(name),
    ensures
        0 <= i < n,
        meta::roster()[i].name == name,
    decreases n,
{
    if recalled_first(stored, (n - 1) as nat).contains_key(name) {
        lemma_recalled_names(stored, (n - 1) as nat, name)
    } else {
        n - 1
    }
}

/// A plugin is switched on by the recalled toggles where the stored toggle says
/// so: `m` is what the plugin says of itself.
pub proof fn lemma_runs_as_listed(stored: Seq<Option<Seq<char>>>, i: int, m: MetaView)
    requires
        0 <= i < meta::roster().len(),
        m.name == meta::roster()[i].name,
        m.default_enabled == meta::roster()[i].default_enabled,
    ensures
        switched_on(m, recalled(stored)) == is_enabled(meta::roster()[i], toggle_at(stored, i)),
{
    lemma_recalled(stored, meta::roster().len(), i);
}

/// The toggle that is stored for a plugin is read back, and the toggles of the
/// other plugins stay as they were.
pub proof fn law_switching_is_stored(
    settings: Map<Seq<char>, Seq<char>>,
    device_id: Seq<char>,
    i: int,
    enabled: bool,
)
    requires
        0 <= i < meta::roster().len(),
    ensures
        ({
            let name = meta::roster()[i].name;
            let after = settings.insert(plugin_key(device_id, name), toggle_text(enabled));
            recalled(stored_toggles(after, device_id)) == recalled(
                stored_toggles(settings, device_id),
            ).insert(name, enabled)
        }),
{
    reveal_strlit("1");
    reveal_strlit("0");
    assert("1"@[0] == '1' && "0"@[0] == '0');
    let name = meta::roster()[i].name;
    let n = meta::roster().len();
    let before = stored_toggles(settings, device_id);
    let after = stored_toggles(
        settings.insert(plugin_key(device_id, name), toggle_text(enabled)),
        device_id,
    );
    assert forall|j: int| 0 <= j < n implies #[trigger] after[j] == if j == i {
        Some(toggle_text(enabled))
    } else {
        before[j]
    } by {
        let a = plugin_key(device_id, meta::roster()[j].name);
        let k = ("plugin:"@ + device_id + ":"@).len() as int;
        assert(a.skip(k) =~= meta::roster()[j].name);
        assert(plugin_key(device_id, name).skip(k) =~= name);
        if j < i {
            meta::law_names_are_unique(j, i);
        } else if i < j {
            meta::law_names_are_unique(i, j);
        }
    }
    let wanted = recalled(before).insert(name, enabled);
    assert forall|k: Seq<char>| #[trigger]
        recalled(after).contains_key(k) == wanted.contains_key(k) && (wanted.contains_key(k)
            ==> recalled(after)[k] == wanted[k]) by {
        if recalled(after).contains_key(k) {
            let j = lemma_recalled_names(after, n, k);
            lemma_recalled(after, n, j);
            lemma_recalled(before, n, j);
            assert(after[j] == after[j]);
        } else if k == name {
            lemma_recalled(after, n, i);
            assert(after[i] == after[i]);
        } else if recalled(before).contains_key(k) {
            let j = lemma_recalled_names(before, n, k);
            lemma_recalled(after, n, j);
            lemma_recalled(before, n, j);
            assert(after[j] == after[j]);
        }
    }
    assert(recalled(after) =~= wanted);
}

/// The key under which a plugin's toggle is stored.
pub(crate) fn plugin_key_text(device_id: &str, plugin: &str) -> (r: String)
    ensures
        r@ == plugin_key(device_id@, plugin@),
{
    "plugin:".to_owned().concat(device_id).concat(":").concat(plugin)
}

/// The keys under which the toggles of a device's plugins are stored.
pub fn plugin_keys(device_id: &str) -> (r: Vec<String>)
    ensures
        text::texts(r@) == plugin_keys_of(device_id@),
{
    let all = meta::all();
    let ghost views = all@.map_values(|m: PluginMeta| m@);
    let mut keys: Vec<String> = Vec::new();
    let mut i: usize = 0;
    while i < all.len()
        invariant
            i <= all.len(),
            views == all@.map_values(|m: PluginMeta| m@),
            views == meta::roster(),
            text::texts(keys@) == plugin_keys_of(device_id@).take(i as int),
        decreases all.len() - i,
    {
        assert(views[i as int] == all@[i as int]@);
        let ghost before = text::texts(keys@);
        let key = plugin_key_text(device_id, all[i].name);
        let ghost added = key@;
        keys.push(key);
        proof {
            let wanted = plugin_keys_of(device_id@);
            assert(text::texts(keys@) =~= before.push(added));
            assert(wanted.take(i + 1) =~= wanted.take(i as int).push(wanted[i as int]));
        }
        i += 1;
    }
    assert(views.len() == all@.len());
    assert(plugin_keys_of(device_id@).take(i as int) =~= plugin_keys_of(device_id@));
    keys
}

/// What a stored toggle says.
fn toggle(stored: Option<&str>) -> (r: Option<bool>)
    ensures
        r == toggle_of(store::str_view(stored)),
{
    proof {
        reveal_strlit("1");
        reveal_strlit("0");
        assert("1"@[0] == '1' && "0"@[0] == '0');
    }
    if let Some(t) = stored {
        if text::same(t, "1") {
            return Some(true);
        }
        if text::same(t, "0") {
            return Some(false);
        }
    }
    None
}

/// Whether a plugin is enabled.
pub(crate) fn enabled(m: &PluginMeta, stored: Option<&str>) -> (r: bool)
    ensures
        r == is_enabled(m@, store::str_view(stored)),
{
    match toggle(stored) {
        Some(on) => on,
        None => m.default_enabled,
    }
}

/// The toggles of a device. `stored` is what was found under the keys that
/// [`plugin_keys`] gives.
pub fn recall(stored: &Vec<Option<String>>) -> (r: TextMap<bool>)
    ensures
        r@ == recalled(toggles_view(stored@)),
{
    let all = meta::all();
    let ghost views = all@.map_values(|m: PluginMeta| m@);
    let ghost said = toggles_view(stored@);
    let mut r: TextMap<bool> = TextMap::new();
    let mut i: usize = 0;
    while i < all.len()
        invariant
            i <= all.len(),
            views == all@.map_values(|m: PluginMeta| m@),
            views == meta::roster(),
            said == toggles_view(stored@),
            r@ == recalled_first(said, i as nat),
        decreases all.len() - i,
    {
        assert(views[i as int] == all@[i as int]@);
        let found = if i < stored.len() {
            match &stored[i] {
                Some(t) => Some(t.as_str()),
                None => None,
            }
        } else {
            None
        };
        assert(store::str_view(found) == toggle_at(said, i as int));
        if let Some(on) = toggle(found) {
            let _ = r.insert(all[i].name.to_owned(), on);
        }
        i += 1;
    }
    assert(views.len() == all@.len());
    r
}

/// A stored one switches a plugin on and a stored zero switches it off;
/// anything else leaves it as it is by default. Each plugin of each device has
/// a place of its own.
pub proof fn law_ones_switch_on(m: MetaView, stored: Option<Seq<char>>)
    ensures
        stored == Some("1"@) ==> is_enabled(m, stored),
        stored == Some("0"@) ==> !is_enabled(m, stored),
        stored != Some("1"@) && stored != Some("0"@) ==> is_enabled(m, stored)
            == m.default_enabled,
        toggle_text(true) == "1"@,
        toggle_text(false) == "0"@,
        switched_on(m, Map::empty()) == m.default_enabled,
        switched_on(m, Map::empty().insert(m.name, true)),
        !switched_on(m, Map::empty().insert(m.name, false)),
{
    reveal_strlit("1");
    reveal_strlit("0");
    assert("1"@[0] == '1' && "0"@[0] == '0');
}

} // verus!
