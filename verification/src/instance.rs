//! Game instances: isolated profiles, each with its own game directory, and
//! the one among them that is active.

use vstd::prelude::*;

use crate::text::{
    chars_of, clone_text, concat3, contains, contains_text, starts_with, starts_with_text,
};

verus! {

/// Memory limits that an instance sets for itself, in MB.
#[derive(Clone, Copy, Debug, PartialEq, Eq, Structural)]
pub struct MemoryOverride {
    pub min: u32,
    pub max: u32,
}

/// A game instance.
#[derive(Debug)]
pub struct Instance {
    /// The unique identifier.
    pub id: String,
    /// The name shown to the user.
    pub name: String,
    /// The directory of the game's files.
    pub game_dir: String,
    /// The game version selected.
    pub version_id: Option<String>,
    /// When the instance was created, in seconds since the Unix epoch.
    pub created_at: i64,
    /// When the instance was last played.
    pub last_played: Option<i64>,
    pub icon_path: Option<String>,
    pub notes: Option<String>,
    /// `fabric`, `forge` or `vanilla`.
    pub mod_loader: Option<String>,
    pub mod_loader_version: Option<String>,
    pub jvm_args_override: Option<String>,
    pub memory_override: Option<MemoryOverride>,
}

/// The mathematical content of an `Instance`.
pub struct InstanceView {
    pub id: Seq<char>,
    pub name: Seq<char>,
    pub game_dir: Seq<char>,
    pub version_id: Option<Seq<char>>,
    pub created_at: i64,
    pub last_played: Option<i64>,
    pub icon_path: Option<Seq<char>>,
    pub notes: Option<Seq<char>>,
    pub mod_loader: Option<Seq<char>>,
    pub mod_loader_version: Option<Seq<char>>,
    pub jvm_args_override: Option<Seq<char>>,
    pub memory_override: Option<MemoryOverride>,
}

impl View for Instance {
    type V = InstanceView;

    open spec fn view(&self) -> InstanceView {
        InstanceView {
            id: self.id@,
            name: self.name@,
            game_dir: self.game_dir@,
            version_id: self.version_id.deep_view(),
            created_at: self.created_at,
            last_played: self.last_played,
            icon_path: self.icon_path.deep_view(),
            notes: self.notes.deep_view(),
            mod_loader: self.mod_loader.deep_view(),
            mod_loader_version: self.mod_loader_version.deep_view(),
            jvm_args_override: self.jvm_args_override.deep_view(),
            memory_override: self.memory_override,
        }
    }
}

impl Clone for Instance {
    fn clone(&self) -> (copy: Self)
        ensures
            copy@ == self@,
    {
        Instance {
            id: self.id.clone(),
            name: self.name.clone(),
            game_dir: self.game_dir.clone(),
            version_id: clone_text(&self.version_id),
            created_at: self.created_at,
            last_played: self.last_played,
            icon_path: clone_text(&self.icon_path),
            notes: clone_text(&self.notes),
            mod_loader: clone_text(&self.mod_loader),
            mod_loader_version: clone_text(&self.mod_loader_version),
            jvm_args_override: clone_text(&self.jvm_args_override),
            memory_override: self.memory_override,
        }
    }
}

impl Instance {
    /// A new instance with the given identity and directory: a vanilla
    /// game, no version selected, never played.
    pub fn fresh(id: String, name: String, game_dir: String, created_at: i64) -> (instance: Self)
        ensures
            instance@ == (InstanceView {
                id: id@,
                name: name@,
                game_dir: game_dir@,
                version_id: None,
                created_at,
                last_played: None,
                icon_path: None,
                notes: None,
                mod_loader: Some("vanilla"@),
                mod_loader_version: None,
                jvm_args_override: None,
                memory_override: None,
            }),
    {
        Instance {
            id,
            name,
            game_dir,
            version_id: None,
            created_at,
            last_played: None,
            icon_path: None,
            notes: None,
            mod_loader: Some("vanilla".to_string()),
            mod_loader_version: None,
            jvm_args_override: None,
            memory_override: None,
        }
    }

    /// A copy of this instance under a new identity, name and directory:
    /// it keeps the version, the mod loader, the notes, the icon and the
    /// overrides, and has never been played.
    pub fn duplicate(&self, new_id: String, new_name: String, new_game_dir: String, created_at: i64) -> (copy:
        Self)
        ensures
            copy@ == (InstanceView {
                id: new_id@,
                name: new_name@,
                game_dir: new_game_dir@,
                created_at,
                last_played: None,
                ..self@
            }),
    {
        Instance {
            id: new_id,
            name: new_name,
            game_dir: new_game_dir,
            version_id: clone_text(&self.version_id),
            mod_loader: clone_text(&self.mod_loader),
            mod_loader_version: clone_text(&self.mod_loader_version),
            notes: clone_text(&self.notes),
            icon_path: clone_text(&self.icon_path),
            created_at,
            last_played: None,
            jvm_args_override: clone_text(&self.jvm_args_override),
            memory_override: self.memory_override,
        }
    }
}

/// The version `deleted` is one that the mod loader of the instance
/// installed: a Fabric version of an instance that runs Fabric, or a Forge
/// version of one that runs Forge.
pub open spec fn is_loader_version(instance: InstanceView, deleted: Seq<char>) -> bool {
    ||| starts_with_text(deleted, "fabric-loader-"@) && instance.mod_loader == Some("fabric"@)
    ||| contains_text(deleted, "-forge-"@) && instance.mod_loader == Some("forge"@)
}

/// The instance once the version `deleted` is gone: it is no longer the
/// selected one, and the mod loader that came with it is no longer
/// recorded.
pub open spec fn without_version(instance: InstanceView, deleted: Seq<char>) -> InstanceView {
    InstanceView {
        version_id: if instance.version_id == Some(deleted) {
            None
        } else {
            instance.version_id
        },
        mod_loader: if is_loader_version(instance, deleted) {
            None
        } else {
            instance.mod_loader
        },
        mod_loader_version: if is_loader_version(instance, deleted) {
            None
        } else {
            instance.mod_loader_version
        },
        ..instance
    }
}

/// Whether an optional text is the given one.
fn is_text(value: &Option<String>, expected: &str) -> (same: bool)
    ensures
        same == (value.deep_view() == Some(expected@)),
{
    match value {
        Some(text) => crate::text::same_text(text.as_str(), expected),
        None => false,
    }
}

impl Instance {
    /// Records that a mod loader was installed: its kind, its version, and
    /// the game version that it created, which becomes the selected one.
    pub fn record_mod_loader(&mut self, loader: &str, loader_version: &str, version_id: &str)
        ensures
            final(self)@ == (InstanceView {
                mod_loader: Some(loader@),
                mod_loader_version: Some(loader_version@),
                version_id: Some(version_id@),
                ..old(self)@
            }),
    {
        self.mod_loader = Some(loader.to_string());
        self.mod_loader_version = Some(loader_version.to_string());
        self.version_id = Some(version_id.to_string());
    }

    /// Takes in that the version `deleted` was deleted from the instance's
    /// game directory, and says whether anything changed: a selected
    /// version that is gone is no longer selected, and a mod loader whose
    /// version is gone is no longer recorded.
    pub fn forget_version(&mut self, deleted: &str) -> (changed: bool)
        ensures
            final(self)@ == without_version(old(self)@, deleted@),
            changed == (old(self)@.version_id == Some(deleted@) || is_loader_version(
                old(self)@,
                deleted@,
            )),
    {
        let mut changed = false;
        let selected = is_text(&self.version_id, deleted);
        let name = chars_of(deleted);
        let fabric = starts_with(name.as_slice(), chars_of("fabric-loader-").as_slice()) && is_text(
            &self.mod_loader,
            "fabric",
        );
        let forge = contains(name.as_slice(), chars_of("-forge-").as_slice()) && is_text(
            &self.mod_loader,
            "forge",
        );
        if selected {
            self.version_id = None;
            changed = true;
        }
        if fabric || forge {
            self.mod_loader = None;
            self.mod_loader_version = None;
            changed = true;
        }
        changed
    }
}

/// All instances and the one that is active.
#[derive(Debug)]
pub struct InstanceConfig {
    pub instances: Vec<Instance>,
    pub active_instance_id: Option<String>,
}

/// The mathematical content of an `InstanceConfig`.
pub struct InstanceConfigView {
    pub instances: Seq<InstanceView>,
    pub active_instance_id: Option<Seq<char>>,
}

/// The instances of `list` in order, as mathematical values.
pub open spec fn instances_of(list: Seq<Instance>) -> Seq<InstanceView> {
    list.map_values(|i: Instance| i@)
}

impl View for InstanceConfig {
    type V = InstanceConfigView;

    open spec fn view(&self) -> InstanceConfigView {
        InstanceConfigView {
            instances: instances_of(self.instances@),
            active_instance_id: self.active_instance_id.deep_view(),
        }
    }
}

impl Default for InstanceConfig {
    fn default() -> (config: Self)
        ensures
            config@ == (InstanceConfigView { instances: Seq::empty(), active_instance_id: None }),
    {
        let config = InstanceConfig { instances: Vec::new(), active_instance_id: None };
        assert(config@.instances =~= Seq::<InstanceView>::empty());
        config
    }
}

/// The place of the first instance with the identifier `id`, or the length
/// of the list where there is none.
pub open spec fn position_of(list: Seq<InstanceView>, id: Seq<char>) -> int
    decreases list.len(),
{
    if list.len() == 0 {
        0
    } else if list[0].id == id {
        0
    } else {
        1 + position_of(list.drop_first(), id)
    }
}

/// The place found is in the list or just behind it; no instance before it
/// has the identifier, and the one at it has.
pub proof fn lemma_position_of(list: Seq<InstanceView>, id: Seq<char>)
    ensures
        0 <= position_of(list, id) <= list.len(),
        position_of(list, id) < list.len() ==> list[position_of(list, id)].id == id,
        forall|k: int| 0 <= k < position_of(list, id) ==> (#[trigger] list[k]).id != id,
    decreases list.len(),
{
    if list.len() > 0 && list[0].id != id {
        lemma_position_of(list.drop_first(), id);
        assert forall|k: int| 0 <= k < position_of(list, id) implies (#[trigger] list[k]).id != id by {
            if k > 0 {
                assert(list.drop_first()[k - 1] == list[k]);
            }
        }
    }
}

/// The first instance with the identifier `id`.
pub open spec fn instance_with(list: Seq<InstanceView>, id: Seq<char>) -> Option<InstanceView> {
    if position_of(list, id) < list.len() {
        Some(list[position_of(list, id)])
    } else {
        None
    }
}

/// The message for an identifier that names no instance.
pub open spec fn not_found_message(id: Seq<char>) -> Seq<char> {
    "Instance "@ + id + " not found"@
}

/// The view of an optional instance.
pub open spec fn opt_instance(instance: Option<Instance>) -> Option<InstanceView> {
    match instance {
        Some(i) => Some(i@),
        None => None,
    }
}

/// The instances and the file they are kept in.
#[derive(Debug)]
pub struct InstanceState {
    pub instances: InstanceConfig,
    pub file_path: String,
}

impl InstanceState {
    /// The state over `config`, kept in the file at `file_path`.
    pub fn new(config: InstanceConfig, file_path: String) -> (state: Self)
        ensures
            state.instances == config,
            state.file_path == file_path,
    {
        InstanceState { instances: config, file_path }
    }

    /// The place of the first instance with the identifier `id`.
    fn find(&self, id: &str) -> (place: usize)
        ensures
            place == position_of(self.instances@.instances, id@),
            place <= self.instances.instances@.len(),
    {
        let key = id.to_string();
        let ghost list = self.instances@.instances;
        let mut i: usize = 0;
        assert(list.skip(0) =~= list);
        while i < self.instances.instances.len()
            invariant
                i <= self.instances.instances@.len(),
                list == self.instances@.instances,
                key@ == id@,
                position_of(list, id@) == i + position_of(list.skip(i as int), id@),
            decreases self.instances.instances@.len() - i,
        {
            proof {
                assert(list.skip(i as int)[0] == self.instances.instances@[i as int]@);
                assert(list.skip(i as int).drop_first() =~= list.skip(i + 1));
            }
            if self.instances.instances[i].id == key {
                return i;
            }
            i += 1;
        }
        i
    }

    /// Adds a new instance at the end. With no instance active, the new
    /// one becomes the active one.
    pub fn create_instance(&mut self, instance: Instance)
        ensures
            final(self)@ == (InstanceConfigView {
                instances: old(self)@.instances.push(instance@),
                active_instance_id: match old(self)@.active_instance_id {
                    Some(active) => Some(active),
                    None => Some(instance@.id),
                },
            }),
            final(self).file_path == old(self).file_path,
    {
        let ghost before = self.instances@.instances;
        if self.instances.active_instance_id.is_none() {
            self.instances.active_instance_id = Some(instance.id.clone());
        }
        self.instances.instances.push(instance);
        assert(self.instances@.instances =~= before.push(instance@));
    }

    /// Removes the first instance with the identifier `id` and returns it.
    /// If it was the active one, the first instance left becomes active, or
    /// none where none is left. An identifier that names no instance is an
    /// error and changes nothing.
    pub fn delete_instance(&mut self, id: &str) -> (result: Result<Instance, String>)
        ensures
            final(self).file_path == old(self).file_path,
            match result {
                Ok(removed) => {
                    let list = old(self)@.instances;
                    let place = position_of(list, id@);
                    &&& place < list.len()
                    &&& removed@ == list[place]
                    &&& final(self)@.instances == list.remove(place)
                    &&& final(self)@.active_instance_id == if old(self)@.active_instance_id
                        == Some(id@) {
                        if list.len() > 1 {
                            Some(list.remove(place)[0].id)
                        } else {
                            None
                        }
                    } else {
                        old(self)@.active_instance_id
                    }
                },
                Err(message) => {
                    &&& position_of(old(self)@.instances, id@) == old(self)@.instances.len()
                    &&& message@ == not_found_message(id@)
                    &&& final(self)@ == old(self)@
                },
            },
    {
        let ghost list = self.instances@.instances;
        let place = self.find(id);
        proof {
            lemma_position_of(list, id@);
        }
        if place >= self.instances.instances.len() {
            return Err(concat3("Instance ", id, " not found"));
        }
        let removed = self.instances.instances.remove(place);
        assert(self.instances@.instances =~= list.remove(place as int));
        let was_active = match &self.instances.active_instance_id {
            Some(active) => *active == id.to_string(),
            None => false,
        };
        if was_active {
            if self.instances.instances.len() > 0 {
                self.instances.active_instance_id = Some(self.instances.instances[0].id.clone());
            } else {
                self.instances.active_instance_id = None;
            }
        }
        Ok(removed)
    }

    /// Replaces the first instance that has the identifier of `instance`
    /// by `instance`. An identifier that names no instance is an error and
    /// changes nothing.
    pub fn update_instance(&mut self, instance: Instance) -> (result: Result<(), String>)
        ensures
            final(self).file_path == old(self).file_path,
            final(self)@.active_instance_id == old(self)@.active_instance_id,
            match result {
                Ok(_) => {
                    let list = old(self)@.instances;
                    let place = position_of(list, instance@.id);
                    &&& place < list.len()
                    &&& final(self)@.instances == list.update(place, instance@)
                },
                Err(message) => {
                    &&& position_of(old(self)@.instances, instance@.id) == old(
                        self,
                    )@.instances.len()
                    &&& message@ == not_found_message(instance@.id)
                    &&& final(self)@ == old(self)@
                },
            },
    {
        let ghost list = self.instances@.instances;
        let place = self.find(instance.id.as_str());
        proof {
            lemma_position_of(list, instance@.id);
        }
        if place >= self.instances.instances.len() {
            return Err(concat3("Instance ", instance.id.as_str(), " not found"));
        }
        self.instances.instances.set(place, instance);
        assert(self.instances@.instances =~= list.update(place as int, instance@));
        Ok(())
    }

    /// The first instance with the identifier `id`.
    pub fn get_instance(&self, id: &str) -> (instance: Option<Instance>)
        ensures
            opt_instance(instance) == instance_with(self@.instances, id@),
    {
        let place = self.find(id);
        if place < self.instances.instances.len() {
            Some(self.instances.instances[place].clone())
        } else {
            None
        }
    }

    /// All instances, in order.
    pub fn list_instances(&self) -> (list: Vec<Instance>)
        ensures
            instances_of(list@) == self@.instances,
    {
        let mut list: Vec<Instance> = Vec::new();
        let mut i: usize = 0;
        while i < self.instances.instances.len()
            invariant
                i <= self.instances.instances@.len(),
                list@.len() == i,
                forall|k: int| 0 <= k < i ==> (#[trigger] list@[k])@ == self.instances.instances@[k]@,
            decreases self.instances.instances@.len() - i,
        {
            list.push(self.instances.instances[i].clone());
            i += 1;
        }
        assert(instances_of(list@) =~= self@.instances);
        list
    }

    /// Makes the instance with the identifier `id` the active one. An
    /// identifier that names no instance is an error and changes nothing.
    pub fn set_active_instance(&mut self, id: &str) -> (result: Result<(), String>)
        ensures
            final(self).file_path == old(self).file_path,
            final(self)@.instances == old(self)@.instances,
            match result {
                Ok(_) => {
                    &&& instance_with(old(self)@.instances, id@) is Some
                    &&& final(self)@.active_instance_id == Some(id@)
                },
                Err(message) => {
                    &&& instance_with(old(self)@.instances, id@) is None
                    &&& message@ == not_found_message(id@)
                    &&& final(self)@ == old(self)@
                },
            },
    {
        let place = self.find(id);
        if place >= self.instances.instances.len() {
            return Err(concat3("Instance ", id, " not found"));
        }
        self.instances.active_instance_id = Some(id.to_string());
        Ok(())
    }

    /// The active instance: the first instance with the active identifier,
    /// if one is set and names an instance.
    pub fn get_active_instance(&self) -> (instance: Option<Instance>)
        ensures
            opt_instance(instance) == match self@.active_instance_id {
                Some(id) => instance_with(self@.instances, id),
                None => None,
            },
    {
        match &self.instances.active_instance_id {
            Some(id) => self.get_instance(id.as_str()),
            None => None,
        }
    }

    /// The game directory of the first instance with the identifier `id`.
    pub fn get_instance_game_dir(&self, id: &str) -> (dir: Option<String>)
        ensures
            match instance_with(self@.instances, id@) {
                Some(instance) => dir is Some && dir->0@ == instance.game_dir,
                None => dir is None,
            },
    {
        match self.get_instance(id) {
            Some(instance) => Some(instance.game_dir),
            None => None,
        }
    }
}

impl InstanceState {
    /// Records on the instance `instance_id` that a mod loader was
    /// installed. Where no instance has that identifier nothing happens.
    pub fn record_installed_loader(
        &mut self,
        instance_id: &str,
        loader: &str,
        loader_version: &str,
        version_id: &str,
    ) -> (result: Result<(), String>)
        ensures
            result is Ok,
            final(self).file_path == old(self).file_path,
            final(self)@.active_instance_id == old(self)@.active_instance_id,
            final(self)@.instances == match instance_with(old(self)@.instances, instance_id@) {
                Some(instance) => old(self)@.instances.update(
                    position_of(old(self)@.instances, instance_id@),
                    InstanceView {
                        mod_loader: Some(loader@),
                        mod_loader_version: Some(loader_version@),
                        version_id: Some(version_id@),
                        ..instance
                    },
                ),
                None => old(self)@.instances,
            },
    {
        proof {
            lemma_position_of(self@.instances, instance_id@);
        }
        match self.get_instance(instance_id) {
            Some(instance) => {
                let mut instance = instance;
                instance.record_mod_loader(loader, loader_version, version_id);
                self.update_instance(instance)
            },
            None => Ok(()),
        }
    }

    /// Takes in that the version `deleted` was deleted from the game
    /// directory of the instance `instance_id`: that instance forgets the
    /// version, and no other instance changes. Where no instance has that
    /// identifier nothing happens.
    pub fn forget_deleted_version(&mut self, instance_id: &str, deleted: &str) -> (result: Result<
        (),
        String,
    >)
        ensures
            result is Ok,
            final(self).file_path == old(self).file_path,
            final(self)@.active_instance_id == old(self)@.active_instance_id,
            final(self)@.instances == match instance_with(old(self)@.instances, instance_id@) {
                Some(instance) => old(self)@.instances.update(
                    position_of(old(self)@.instances, instance_id@),
                    without_version(instance, deleted@),
                ),
                None => old(self)@.instances,
            },
    {
        proof {
            lemma_position_of(self@.instances, instance_id@);
        }
        match self.get_instance(instance_id) {
            Some(instance) => {
                let mut instance = instance;
                let ghost list = self@.instances;
                let ghost place = position_of(list, instance_id@);
                if instance.forget_version(deleted) {
                    self.update_instance(instance)
                } else {
                    assert(list.update(place, list[place]) =~= list);
                    Ok(())
                }
            },
            None => Ok(()),
        }
    }
}

impl View for InstanceState {
    type V = InstanceConfigView;

    open spec fn view(&self) -> InstanceConfigView {
        self.instances@
    }
}

} // verus!
