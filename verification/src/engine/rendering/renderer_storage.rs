//! What the renderer keeps between frames: its commands, the queue of the
//! frame, which commands are culled, and how many commands use each texture.

use vstd::prelude::*;
use vstd::string::StringExecFns;
use bit_set::BitSet;
use std::collections::HashMap;
use std::collections::VecDeque;
use crate::engine::rendering::shaders::{ShaderInfo, ShaderType, Texture, DEFAULT_SHADER_NAME};
use crate::engine::utils::bits::{
    bit_set_members, bits_contains, bits_insert, bits_remove, bits_with_capacity,
};
use crate::engine::utils::name_map::{NameEntry, NameMap};

verus! {

broadcast use vstd::std_specs::hash::group_hash_axioms;

/// The file of the engine's own vertex shader.
pub const DEFAULT_VERTEX_SHADER: &'static str = "vertex.shader";

/// The file of the engine's own fragment shader.
pub const DEFAULT_FRAGMENT_SHADER: &'static str = "fragment.shader";

/// A handle on the graphics device and the number of commands that use it.
#[derive(Debug, Clone, Copy)]
pub struct HandleCountPair<T> {
    pub handle: T,
    pub count: u32,
}

/// The names and handles of the textures that no command uses, in the order
/// of the entries.
pub open spec fn dangling_of(entries: Seq<NameEntry<HandleCountPair<u32>>>) -> Seq<
    (Seq<char>, u32),
>
    decreases entries.len(),
{
    if entries.len() == 0 {
        Seq::empty()
    } else {
        let before = dangling_of(entries.drop_last());
        if entries.last().value.count == 0 {
            before.push((entries.last().name@, entries.last().value.handle))
        } else {
            before
        }
    }
}

/// The sum of the counts of uses of all textures.
pub open spec fn total_uses(entries: Seq<NameEntry<HandleCountPair<u32>>>) -> int
    decreases entries.len(),
{
    if entries.len() == 0 {
        0
    } else {
        total_uses(entries.drop_last()) + entries.last().value.count
    }
}

/// A list of textures by name and handle, as mathematical values.
pub open spec fn named_handles(list: Seq<(String, u32)>) -> Seq<(Seq<char>, u32)> {
    list.map_values(|e: (String, u32)| (e.0@, e.1))
}

/// The names in a list of textures.
pub open spec fn names_of(list: Seq<(Seq<char>, u32)>) -> Set<Seq<char>> {
    list.map_values(|e: (Seq<char>, u32)| e.0).to_set()
}

/// Whether `needle` stands somewhere in `text`.
pub open spec fn has_substring(text: Seq<char>, needle: Seq<char>) -> bool {
    exists|i: int|
        0 <= i && i + needle.len() <= text.len() && #[trigger] text.subrange(
            i,
            i + needle.len(),
        ) == needle
}

/// Calls `str::contains` with a string as the pattern, which says whether
/// the pattern stands somewhere in the text.
#[verifier::external_body]
fn str_contains(text: &str, needle: &str) -> (found: bool)
    ensures
        found == has_substring(text@, needle@),
{
    text.contains(needle)
}

/// The sum over a list is at least the sum over each of its beginnings.
pub proof fn lemma_total_uses_grows(entries: Seq<NameEntry<HandleCountPair<u32>>>, n: int)
    requires
        0 <= n <= entries.len(),
    ensures
        total_uses(entries.take(n)) <= total_uses(entries),
        0 <= total_uses(entries.take(n)),
    decreases entries.len() - n,
{
    if n == entries.len() {
        assert(entries.take(n) =~= entries);
        lemma_total_uses_nonnegative(entries);
    } else {
        lemma_total_uses_grows(entries, n + 1);
        assert(entries.take(n + 1).drop_last() =~= entries.take(n));
        lemma_total_uses_nonnegative(entries.take(n));
    }
}

/// A sum of counts is not negative.
pub proof fn lemma_total_uses_nonnegative(entries: Seq<NameEntry<HandleCountPair<u32>>>)
    ensures
        0 <= total_uses(entries),
    decreases entries.len(),
{
    if entries.len() > 0 {
        lemma_total_uses_nonnegative(entries.drop_last());
    }
}

/// The renderer's store, for commands of type `C`.
pub struct RendererStorage<C> {
    pub render_command_storage: HashMap<usize, C>,
    pub renderer_queue: VecDeque<C>,
    pub culled_handles: BitSet,
    ram_texture_cache: NameMap<Texture>,
    gpu_texture_cache: NameMap<HandleCountPair<u32>>,
    dangling_textures: Vec<(String, u32)>,
}

impl<C: Clone> RendererStorage<C> {
    /// The commands by handle.
    pub closed spec fn commands(&self) -> Map<usize, C> {
        self.render_command_storage@
    }

    /// The commands to draw in this frame, first to last.
    pub closed spec fn queue(&self) -> Seq<C> {
        self.renderer_queue@
    }

    /// The handles of the commands that are not to be drawn.
    pub closed spec fn culled(&self) -> Set<usize> {
        bit_set_members(self.culled_handles)
    }

    /// The textures that were decoded, by name.
    pub closed spec fn ram_textures(&self) -> Map<Seq<char>, Texture> {
        self.ram_texture_cache@
    }

    /// The textures on the graphics device, by name, each with its handle
    /// there and the number of commands that use it.
    pub closed spec fn gpu_textures(&self) -> Map<Seq<char>, HandleCountPair<u32>> {
        self.gpu_texture_cache@
    }

    /// The entries behind `gpu_textures`, in the order in which the names came in.
    pub closed spec fn gpu_entries(&self) -> Seq<NameEntry<HandleCountPair<u32>>> {
        self.gpu_texture_cache.entries()
    }

    /// The textures found unused and not yet forgotten.
    pub closed spec fn dangling(&self) -> Seq<(Seq<char>, u32)> {
        named_handles(self.dangling_textures@)
    }

    pub fn new() -> (store: RendererStorage<C>)
        ensures
            store.commands() == Map::<usize, C>::empty(),
            store.queue() == Seq::<C>::empty(),
            store.culled() == Set::<usize>::empty(),
            store.ram_textures() == Map::<Seq<char>, Texture>::empty(),
            store.gpu_textures() == Map::<Seq<char>, HandleCountPair<u32>>::empty(),
            store.dangling() == Seq::<(Seq<char>, u32)>::empty(),
    {
        let store = RendererStorage {
            render_command_storage: HashMap::new(),
            renderer_queue: VecDeque::new(),
            ram_texture_cache: NameMap::new(),
            gpu_texture_cache: NameMap::new(),
            culled_handles: bits_with_capacity(2048),
            dangling_textures: Vec::with_capacity(200usize),
        };
        assert(store.dangling() =~= Seq::<(Seq<char>, u32)>::empty());
        store
    }

    /// The order in which the four corners of a quad make two triangles.
    pub fn get_quad_indices() -> (indices: Vec<u32>)
        ensures
            indices@ == seq![0u32, 1, 3, 1, 2, 3],
    {
        let mut indices: Vec<u32> = Vec::new();
        indices.push(0);
        indices.push(1);
        indices.push(3);
        indices.push(1);
        indices.push(2);
        indices.push(3);
        assert(indices@ =~= seq![0u32, 1, 3, 1, 2, 3]);
        indices
    }

    /// Keeps the command under its handle and, if asked to, queues it for this frame.
    pub fn store_command(&mut self, handle: usize, cmd: C, push_to_frame: bool) -> (r: usize)
        ensures
            r == handle,
            final(self).commands().dom() == old(self).commands().dom().insert(handle),
            cloned(cmd, final(self).commands()[handle]),
            forall|h: usize|
                h != handle && #[trigger] old(self).commands().contains_key(h) ==> final(self).commands()[h] == old(self).commands()[h],
            final(self).queue() == (if push_to_frame {
                old(self).queue().push(cmd)
            } else {
                old(self).queue()
            }),
            final(self).culled() == old(self).culled(),
            final(self).gpu_textures() == old(self).gpu_textures(),
            final(self).ram_textures() == old(self).ram_textures(),
            final(self).dangling() == old(self).dangling(),
    {
        self.render_command_storage.insert(handle, cmd.clone());
        if push_to_frame {
            self.renderer_queue.push_back(cmd);
        }
        assert(self.commands().dom() =~= old(self).commands().dom().insert(handle));
        handle
    }

    pub fn has_command(&self, hd: usize) -> (r: bool)
        ensures
            r == self.commands().contains_key(hd),
    {
        self.render_command_storage.contains_key(&hd)
    }

    /// The command of a handle that is in the store.
    pub fn get_ref(&self, hd: usize) -> (cmd: &C)
        requires
            self.commands().contains_key(hd),
        ensures
            *cmd == self.commands()[hd],
    {
        match self.render_command_storage.get(&hd) {
            Some(x) => x,
            None => vstd::pervasive::unreached(),
        }
    }

    pub fn remove_render_command(&mut self, hd: usize)
        ensures
            final(self).commands() == old(self).commands().remove(hd),
            final(self).queue() == old(self).queue(),
            final(self).culled() == old(self).culled(),
            final(self).gpu_textures() == old(self).gpu_textures(),
            final(self).dangling() == old(self).dangling(),
    {
        self.render_command_storage.remove(&hd);
    }

    /// Queues the command of a handle that is in the store for this frame.
    pub fn add_to_frame_queue(&mut self, hd: usize)
        requires
            old(self).commands().contains_key(hd),
        ensures
            final(self).queue().len() == old(self).queue().len() + 1,
            final(self).queue().drop_last() == old(self).queue(),
            cloned(old(self).commands()[hd], final(self).queue().last()),
            final(self).commands() == old(self).commands(),
            final(self).culled() == old(self).culled(),
            final(self).gpu_textures() == old(self).gpu_textures(),
            final(self).dangling() == old(self).dangling(),
    {
        let cmd = match self.render_command_storage.get(&hd) {
            Some(x) => x.clone(),
            None => vstd::pervasive::unreached(),
        };
        self.renderer_queue.push_back(cmd);
        assert(self.queue().drop_last() =~= old(self).queue());
    }

    /// The next command to draw in this frame, taken off the queue.
    pub fn next_in_frame(&mut self) -> (cmd: Option<C>)
        ensures
            old(self).queue().len() == 0 ==> cmd is None && final(self).queue() == old(self).queue(),
            old(self).queue().len() > 0 ==> cmd == Some(old(self).queue()[0]) && final(self).queue() == old(self).queue().skip(1),
            final(self).commands() == old(self).commands(),
            final(self).culled() == old(self).culled(),
            final(self).gpu_textures() == old(self).gpu_textures(),
            final(self).dangling() == old(self).dangling(),
    {
        let cmd = self.renderer_queue.pop_front();
        assert(old(self).queue().len() > 0 ==> self.queue() =~= old(self).queue().skip(1));
        cmd
    }

    /// The name of the file to read for a shader: the engine's own file of
    /// the shader's stage where the name asks for the default, else the name.
    pub open spec fn shader_file_name_spec(file_name: Seq<char>, shader_type: ShaderType) -> Seq<
        char,
    > {
        if has_substring(file_name, DEFAULT_SHADER_NAME@) {
            match shader_type {
                ShaderType::Fragment => DEFAULT_FRAGMENT_SHADER@,
                ShaderType::Vertex => DEFAULT_VERTEX_SHADER@,
            }
        } else {
            file_name
        }
    }

    pub fn shader_file_name(shader_info: &ShaderInfo) -> (file_name: String)
        ensures
            file_name@ == Self::shader_file_name_spec(
                shader_info.file_name@,
                shader_info.shader_type,
            ),
    {
        if str_contains(shader_info.file_name.as_str(), DEFAULT_SHADER_NAME) {
            match shader_info.shader_type {
                ShaderType::Fragment => String::from_str(DEFAULT_FRAGMENT_SHADER),
                ShaderType::Vertex => String::from_str(DEFAULT_VERTEX_SHADER),
            }
        } else {
            shader_info.file_name.clone()
        }
    }

    /// The decoded texture of this name, if it was decoded before.
    pub fn cached_texture(&self, texture_name: &str) -> (r: Option<&Texture>)
        ensures
            match r {
                Some(t) => self.ram_textures().contains_key(texture_name@) && *t
                    == self.ram_textures()[texture_name@],
                None => !self.ram_textures().contains_key(texture_name@),
            },
    {
        self.ram_texture_cache.get(texture_name)
    }

    /// Keeps a decoded texture under its name.
    pub fn cache_texture(&mut self, texture_name: &str, texture: Texture)
        ensures
            final(self).ram_textures() == old(self).ram_textures().insert(texture_name@, texture),
            final(self).commands() == old(self).commands(),
            final(self).queue() == old(self).queue(),
            final(self).culled() == old(self).culled(),
            final(self).gpu_textures() == old(self).gpu_textures(),
            final(self).dangling() == old(self).dangling(),
    {
        self.ram_texture_cache.insert(texture_name, texture);
    }

    /// Marks a command as culled or not. The largest handle that the
    /// machine can count to cannot be marked as culled.
    pub fn mark_culled(&mut self, handle: usize, culled: bool)
        requires
            culled ==> handle < usize::MAX,
        ensures
            final(self).culled() == (if culled {
                old(self).culled().insert(handle)
            } else {
                old(self).culled().remove(handle)
            }),
            final(self).commands() == old(self).commands(),
            final(self).queue() == old(self).queue(),
            final(self).gpu_textures() == old(self).gpu_textures(),
            final(self).dangling() == old(self).dangling(),
    {
        if culled {
            bits_insert(&mut self.culled_handles, handle);
        } else {
            bits_remove(&mut self.culled_handles, handle);
        }
    }

    pub fn is_culled(&self, handle: usize) -> (r: bool)
        ensures
            r == self.culled().contains(handle),
    {
        bits_contains(&self.culled_handles, handle)
    }

    /// The textures after one more command uses the texture of this name:
    /// its count is one higher; if it was not there, it is now, with this
    /// handle and a count of one.
    pub open spec fn after_increment(
        textures: Map<Seq<char>, HandleCountPair<u32>>,
        texture_name: Seq<char>,
        handle: u32,
    ) -> Map<Seq<char>, HandleCountPair<u32>> {
        if textures.contains_key(texture_name) {
            textures.insert(
                texture_name,
                HandleCountPair {
                    handle: textures[texture_name].handle,
                    count: (textures[texture_name].count + 1) as u32,
                },
            )
        } else {
            textures.insert(texture_name, HandleCountPair { handle, count: 1 })
        }
    }

    /// Counts one more command that uses the texture of this name. The
    /// count must have room for one more.
    pub fn increment_texture_handle(&mut self, texture_name: &str, handle: u32)
        requires
            old(self).gpu_textures().contains_key(texture_name@) ==> old(self).gpu_textures()[texture_name@].count < u32::MAX,
        ensures
            final(self).gpu_textures() == Self::after_increment(
                old(self).gpu_textures(),
                texture_name@,
                handle,
            ),
            final(self).commands() == old(self).commands(),
            final(self).queue() == old(self).queue(),
            final(self).culled() == old(self).culled(),
            final(self).dangling() == old(self).dangling(),
    {
        let pair = match self.gpu_texture_cache.get(texture_name) {
            Some(found) => HandleCountPair { handle: found.handle, count: found.count + 1 },
            None => HandleCountPair { handle, count: 1 },
        };
        self.gpu_texture_cache.insert(texture_name, pair);
    }

    /// The textures after one command fewer uses the texture of this name:
    /// its count is one lower, unless it was not there or its count was 0.
    pub open spec fn after_decrement(
        textures: Map<Seq<char>, HandleCountPair<u32>>,
        texture_name: Seq<char>,
    ) -> Map<Seq<char>, HandleCountPair<u32>> {
        if textures.contains_key(texture_name) && textures[texture_name].count >= 1 {
            textures.insert(
                texture_name,
                HandleCountPair {
                    handle: textures[texture_name].handle,
                    count: (textures[texture_name].count - 1) as u32,
                },
            )
        } else {
            textures
        }
    }

    /// Counts one command fewer that uses the texture of this name, and
    /// returns the count that is left; 0 for a texture that is not there.
    pub fn decrement_texture_handle(&mut self, texture_name: &str) -> (left: u32)
        ensures
            final(self).gpu_textures() == Self::after_decrement(
                old(self).gpu_textures(),
                texture_name@,
            ),
            left == (if final(self).gpu_textures().contains_key(texture_name@) {
                final(self).gpu_textures()[texture_name@].count
            } else {
                0
            }),
            final(self).commands() == old(self).commands(),
            final(self).queue() == old(self).queue(),
            final(self).culled() == old(self).culled(),
            final(self).dangling() == old(self).dangling(),
    {
        let found = match self.gpu_texture_cache.get(texture_name) {
            Some(pair) => Some(*pair),
            None => None,
        };
        match found {
            Some(pair) => {
                if pair.count >= 1 {
                    let count: u32 = pair.count - 1;
                    self.gpu_texture_cache.insert(
                        texture_name,
                        HandleCountPair { handle: pair.handle, count },
                    );
                    return count;
                }
                0u32
            },
            None => 0u32,
        }
    }

    pub fn has_gpu_texture_refs(&self, texture_name: &str) -> (r: bool)
        ensures
            r == self.gpu_textures().contains_key(texture_name@),
    {
        self.gpu_texture_cache.contains_key(texture_name)
    }

    /// The number of commands that use the texture of this name; 0 for a
    /// texture that is not there.
    pub fn gpu_texture_count(&self, texture_name: &str) -> (count: u32)
        ensures
            count == (if self.gpu_textures().contains_key(texture_name@) {
                self.gpu_textures()[texture_name@].count
            } else {
                0
            }),
    {
        match self.gpu_texture_cache.get(texture_name) {
            Some(pair) => pair.count,
            None => 0,
        }
    }

    /// The number of textures on the graphics device.
    pub fn gpu_texture_len(&self) -> (n: usize)
        ensures
            n == self.gpu_entries().len(),
    {
        self.gpu_texture_cache.len()
    }

    /// The `i`-th texture on the graphics device, in the order in which the
    /// names came in: its name, its handle and the count of its uses.
    pub fn gpu_texture_at(&self, i: usize) -> (entry: &NameEntry<HandleCountPair<u32>>)
        requires
            i < self.gpu_entries().len(),
        ensures
            *entry == self.gpu_entries()[i as int],
    {
        self.gpu_texture_cache.entry(i)
    }

    /// The sum of the counts of uses of all textures, if it fits the counter.
    pub fn total_handles(&self) -> (total: Option<u32>)
        ensures
            match total {
                Some(t) => t == total_uses(self.gpu_entries()),
                None => total_uses(self.gpu_entries()) > u32::MAX,
            },
    {
        let len: usize = self.gpu_texture_cache.len();
        let mut total: u32 = 0;
        let mut i: usize = 0;
        assert(self.gpu_entries().take(0) =~= Seq::empty());
        while i < len
            invariant
                0 <= i <= len,
                len == self.gpu_entries().len(),
                total == total_uses(self.gpu_entries().take(i as int)),
            decreases len - i,
        {
            let ghost entries = self.gpu_entries();
            assert(entries.take(i + 1).drop_last() =~= entries.take(i as int));
            assert(entries.take(i + 1).last() == entries[i as int]);
            let count: u32 = self.gpu_texture_cache.entry(i).value.count;
            match total.checked_add(count) {
                Some(sum) => {
                    total = sum;
                },
                None => {
                    proof {
                        lemma_total_uses_grows(entries, i + 1);
                    }
                    return None;
                },
            }
            i += 1;
        }
        assert(self.gpu_entries().take(len as int) =~= self.gpu_entries());
        Some(total)
    }

    /// The handle on the graphics device of a texture that is there.
    pub fn get_gpu_texture_handle(&self, texture_name: &str) -> (handle: u32)
        requires
            self.gpu_textures().contains_key(texture_name@),
        ensures
            handle == self.gpu_textures()[texture_name@].handle,
    {
        match self.gpu_texture_cache.get(texture_name) {
            Some(pair) => pair.handle,
            None => vstd::pervasive::unreached(),
        }
    }

    /// Finds the textures that no command uses any more, notes them as
    /// dangling and hands them out, for the caller to release them on the
    /// graphics device.
    pub fn iter_dangling_textures(&mut self) -> (found: Vec<(String, u32)>)
        ensures
            named_handles(found@) == dangling_of(old(self).gpu_entries()),
            final(self).dangling() == old(self).dangling() + dangling_of(old(self).gpu_entries()),
            final(self).gpu_textures() == old(self).gpu_textures(),
            final(self).gpu_entries() == old(self).gpu_entries(),
            final(self).commands() == old(self).commands(),
            final(self).queue() == old(self).queue(),
            final(self).culled() == old(self).culled(),
    {
        let mut found: Vec<(String, u32)> = Vec::new();
        let len: usize = self.gpu_texture_cache.len();
        let mut i: usize = 0;
        assert(named_handles(found@) =~= dangling_of(self.gpu_entries().take(0)));
        assert(self.dangling() =~= old(self).dangling() + dangling_of(self.gpu_entries().take(0)));
        while i < len
            invariant
                0 <= i <= len,
                len == self.gpu_entries().len(),
                self.gpu_texture_cache == old(self).gpu_texture_cache,
                self.render_command_storage == old(self).render_command_storage,
                self.renderer_queue == old(self).renderer_queue,
                self.culled_handles == old(self).culled_handles,
                named_handles(found@) == dangling_of(self.gpu_entries().take(i as int)),
                self.dangling() == old(self).dangling() + dangling_of(
                    self.gpu_entries().take(i as int),
                ),
            decreases len - i,
        {
            let entry = self.gpu_texture_cache.entry(i);
            let ghost entries = self.gpu_entries();
            let ghost before_found = found@;
            let ghost before_dangling = self.dangling_textures@;
            assert(entries.take(i + 1).drop_last() =~= entries.take(i as int));
            assert(entries.take(i + 1).last() == entries[i as int]);
            if entry.value.count == 0 {
                let handle: u32 = entry.value.handle;
                found.push((entry.name.clone(), handle));
                self.dangling_textures.push((entry.name.clone(), handle));
                assert(named_handles(found@) =~= named_handles(before_found).push(
                    (entries[i as int].name@, handle),
                ));
                assert(named_handles(self.dangling_textures@) =~= named_handles(
                    before_dangling,
                ).push((entries[i as int].name@, handle)));
                assert(self.dangling() =~= old(self).dangling() + dangling_of(
                    entries.take(i + 1),
                ));
            }
            i += 1;
        }
        assert(self.gpu_entries().take(len as int) =~= self.gpu_entries());
        found
    }

    /// Ends a frame: forgets every texture that was found dangling.
    pub fn reset_frame(&mut self)
        ensures
            final(self).gpu_textures() == old(self).gpu_textures().remove_keys(
                names_of(old(self).dangling()),
            ),
            final(self).dangling() == Seq::<(Seq<char>, u32)>::empty(),
            final(self).commands() == old(self).commands(),
            final(self).queue() == old(self).queue(),
            final(self).culled() == old(self).culled(),
    {
        let len: usize = self.dangling_textures.len();
        let mut i: usize = 0;
        let ghost names = old(self).dangling().map_values(|e: (Seq<char>, u32)| e.0);
        assert(self.gpu_textures() =~= old(self).gpu_textures().remove_keys(
            names.take(0).to_set(),
        ));
        while i < len
            invariant
                0 <= i <= len,
                len == self.dangling_textures@.len(),
                self.dangling_textures == old(self).dangling_textures,
                self.render_command_storage == old(self).render_command_storage,
                self.renderer_queue == old(self).renderer_queue,
                self.culled_handles == old(self).culled_handles,
                names == old(self).dangling().map_values(|e: (Seq<char>, u32)| e.0),
                self.gpu_textures() == old(self).gpu_textures().remove_keys(
                    names.take(i as int).to_set(),
                ),
            decreases len - i,
        {
            let ghost before = self.gpu_textures();
            self.gpu_texture_cache.remove(self.dangling_textures[i].0.as_str());
            proof {
                let name = names[i as int];
                assert(name == self.dangling_textures@[i as int].0@);
                assert(names.take(i + 1) =~= names.take(i as int).push(name));
                let longer = names.take(i + 1);
                let shorter = names.take(i as int);
                assert forall|n: Seq<char>|
                    longer.to_set().contains(n) <==> shorter.to_set().insert(name).contains(
                        n,
                    ) by {
                    if longer.contains(n) {
                        let k = choose|k: int| 0 <= k < longer.len() && longer[k] == n;
                        if k < i {
                            assert(shorter[k] == n);
                        }
                    }
                    if shorter.contains(n) {
                        let k = choose|k: int| 0 <= k < shorter.len() && shorter[k] == n;
                        assert(longer[k] == n);
                    }
                    if n == name {
                        assert(longer[i as int] == n);
                    }
                }
                assert(longer.to_set() =~= shorter.to_set().insert(name));
                assert(self.gpu_textures() =~= old(self).gpu_textures().remove_keys(
                    names.take(i + 1).to_set(),
                ));
            }
            i += 1;
        }
        assert(names.take(len as int) =~= names);
        self.dangling_textures.clear();
        assert(self.dangling() =~= Seq::<(Seq<char>, u32)>::empty());
    }
}

} // verus!
