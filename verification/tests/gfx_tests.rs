use portia::actors::{Actor, ActorManager};
use portia::ecs::{Collidable, Component, ComponentStore, Ghostable, Ghosted, WorldSettings};
use portia::gfx::atlas::{fits_in_atlas, next_glyph_location, whitespace_pixel_size, GlyphAtlas, GlyphCache};
use portia::gfx::gltf_data::{
    append_mesh_indices, index_value, mesh_start, primitive_first_indexes, PrimitiveRange, read_component, read_indices, read_scalars, ComponentType,
    ComponentValue,
};
use portia::gfx::instances::{InnerInstanceContainer, InstanceContainer};
use portia::gfx::quad::quad_indexes;
use portia::gfx::registry::{first_index_named, GltfManager};
use portia::gfx::uniform_container::UniformContainer;

#[test]
fn quad_indexes_from_offset() {
    assert_eq!(quad_indexes(None), vec![0, 1, 2, 2, 1, 3]);
    assert_eq!(quad_indexes(Some(8)), vec![8, 9, 10, 10, 9, 11]);
    assert_eq!(quad_indexes(Some(u32::MAX - 3)).last(), Some(&u32::MAX));
}

#[test]
fn glyphs_fill_rows_then_wrap() {
    assert_eq!(next_glyph_location((0, 0), (32, 40), 512), (32, 0));
    assert_eq!(next_glyph_location((448, 0), (32, 40), 512), (480, 0));
    assert_eq!(next_glyph_location((480, 0), (32, 40), 512), (0, 40));
    assert_eq!(next_glyph_location((480, 40), (32, 40), 512), (0, 80));
}

#[test]
fn atlas_fit_checks_size_and_position() {
    assert!(fits_in_atlas((512, 512), 0, 0, (32, 32)));
    assert!(fits_in_atlas((512, 512), 480, 480, (32, 32)));
    assert!(!fits_in_atlas((512, 512), 481, 0, (32, 32)));
    assert!(!fits_in_atlas((16, 16), 0, 0, (32, 8)));
    assert!(!fits_in_atlas((512, 512), u32::MAX, 0, (1, 1)));
}

#[test]
fn whitespace_is_a_quarter_wide() {
    assert_eq!(whitespace_pixel_size((32, 40)), (8, 3));
    assert_eq!(whitespace_pixel_size((3, 40)), (0, 3));
}

#[test]
fn first_index_named_finds_first() {
    let names = vec!["a.ttf", "b.ttf", "a.ttf"];
    assert_eq!(first_index_named(&names, "a.ttf"), Some(0));
    assert_eq!(first_index_named(&names, "b.ttf"), Some(1));
    assert_eq!(first_index_named(&names, "c.ttf"), None);
}

#[test]
fn gltf_manager_loads_once_and_drops() {
    let mut m: GltfManager<u32> = GltfManager::new(4);
    assert!(m.needs_load("a.glb"));
    m.load_scene("a.glb", 1);
    assert!(!m.needs_load("a.glb"));
    m.load_scene("b.glb", 2);
    assert_eq!(m.find_index("b.glb"), Some(1));
    *m.scene_mut(1) = 5;
    assert_eq!(*m.scene(1), 5);
    m.drop_scene("a.glb");
    assert_eq!(m.len(), 1);
    assert_eq!(m.find_index("a.glb"), None);
    assert_eq!(m.find_index("b.glb"), Some(0));
    m.drop_scene("missing.glb");
    assert_eq!(m.len(), 1);
}

#[test]
fn inner_instances_are_bounded_and_dirty_tracked() {
    let mut c: InnerInstanceContainer<u8, &str> = InnerInstanceContainer::new(vec![0, 0], "buf");
    assert_eq!(c.len(), 0);
    assert!(!c.update_buffer());
    assert!(c.add_instance(1));
    assert!(c.add_instance(2));
    assert!(!c.add_instance(3));
    assert_eq!(c.instances(), &vec![1, 2]);
    assert!(c.update_buffer());
    assert!(!c.update_buffer());
    c.clear();
    // Cleared and empty: nothing to write.
    assert!(!c.update_buffer());
    assert_eq!(*c.buffer(), "buf");
}

#[test]
fn double_buffer_draws_what_was_filled() {
    let a: InnerInstanceContainer<u8, &str> = InnerInstanceContainer::new(vec![0; 3], "a");
    let b: InnerInstanceContainer<u8, &str> = InnerInstanceContainer::new(vec![0; 3], "b");
    let mut c = InstanceContainer::new(a, b);
    assert_eq!(*c.buffer(), "b");
    assert!(c.is_empty());
    c.add_instance(7);
    c.add_instance(8);
    assert!(c.update_buffer());
    assert_eq!(c.updating().instances(), &vec![7, 8]);
    c.clear();
    assert_eq!(*c.buffer(), "a");
    assert_eq!(c.len(), 2);
    assert!(c.updating().instances().is_empty());
    c.add_instance(9);
    c.clear();
    assert_eq!(*c.buffer(), "b");
    assert_eq!(c.len(), 1);
}

#[test]
fn uniform_written_only_after_change() {
    let mut u = UniformContainer::new(3u32, "gpu");
    assert!(!u.write_buffer());
    *u.uniform_mut() = 4;
    assert_eq!(*u.uniform(), 4);
    assert!(u.write_buffer());
    assert!(!u.write_buffer());
    assert_eq!(*u.gpu(), "gpu");
}

#[test]
fn components_are_little_endian() {
    let bytes = [0x01u8, 0x02, 0x03, 0x04, 0xff, 0xff];
    assert_eq!(read_component(&bytes, 0, ComponentType::U8), ComponentValue::U8(1));
    assert_eq!(read_component(&bytes, 4, ComponentType::I8), ComponentValue::I8(-1));
    assert_eq!(read_component(&bytes, 0, ComponentType::U16), ComponentValue::U16(0x0201));
    assert_eq!(read_component(&bytes, 4, ComponentType::I16), ComponentValue::I16(-1));
    assert_eq!(read_component(&bytes, 0, ComponentType::U32), ComponentValue::U32(0x04030201));
    let one = 1.0f32.to_bits().to_le_bytes();
    assert_eq!(read_component(&one, 0, ComponentType::F32), ComponentValue::F32Bits(1.0f32.to_bits()));
}

#[test]
fn index_values_cast_integers() {
    assert_eq!(index_value(ComponentValue::I8(-1)), Some(u32::MAX));
    assert_eq!(index_value(ComponentValue::U8(200)), Some(200));
    assert_eq!(index_value(ComponentValue::I16(-2)), Some(u32::MAX - 1));
    assert_eq!(index_value(ComponentValue::U16(65535)), Some(65535));
    assert_eq!(index_value(ComponentValue::U32(7)), Some(7));
    assert_eq!(index_value(ComponentValue::F32Bits(0)), None);
}

#[test]
fn read_indices_steps_by_element_size() {
    let bytes = [9u8, 9, 1, 0, 2, 0, 3, 0];
    let got = read_indices(&bytes, 2, 3, 2, ComponentType::U16);
    assert_eq!(got, vec![ComponentValue::U16(1), ComponentValue::U16(2), ComponentValue::U16(3)]);
    let got = read_indices(&bytes, 2, 2, 4, ComponentType::U8);
    assert_eq!(got, vec![ComponentValue::U8(1), ComponentValue::U8(3)]);
    assert!(read_indices(&bytes, 100, 0, 4, ComponentType::U32).is_empty());
}

#[test]
fn read_scalars_reads_one_element() {
    // A view of 3 elements of 2 u16 components each, starting at byte 1.
    let bytes = [0u8, 1, 0, 2, 0, 3, 0, 4, 0, 5, 0, 6, 0];
    let got = read_scalars(&bytes, 1, 12, 3, 1, ComponentType::U16);
    assert_eq!(got, vec![ComponentValue::U16(3), ComponentValue::U16(4)]);
    // An element past the end of the buffer has no components.
    assert!(read_scalars(&bytes, 1, 12, 3, 10, ComponentType::U16).is_empty());
}

#[test]
fn mesh_starts_after_what_the_buffer_holds() {
    assert_eq!(mesh_start(0), 0);
    assert_eq!(mesh_start(1), 1);
    assert_eq!(mesh_start(10), 10);
}

#[test]
fn component_store_starts_empty() {
    let settings = WorldSettings { max_clients: 2, max_entities: 3 };
    let _store: ComponentStore<Collidable> = ComponentStore::new(5, &settings);
    let g = Ghostable::default(&settings);
    assert_eq!(g.id, 0);
    assert!(g.clients.is_empty());
    assert_eq!(Ghosted::default(&settings).id, 0);
}

struct Echo {
    address: u8,
    to: Option<u8>,
}

impl Actor<u8> for Echo {
    type Message = String;
    fn can_execute(&self) -> bool {
        true
    }
    fn address(&self) -> u8 {
        self.address
    }
    fn recieve_message(&mut self, _from_address: u8, _input: String) {}
    fn retrieve_outgoing_messages(&mut self) -> Option<(u8, String)> {
        self.to.take().map(|t| (t, format!("from {}", self.address)))
    }
}

#[test]
fn actor_manager_collects_one_round_of_messages() {
    let mut m = ActorManager::new(vec![
        Echo { address: 1, to: Some(2) },
        Echo { address: 2, to: None },
        Echo { address: 3, to: Some(1) },
    ]);
    m.execute();
    assert_eq!(m.message_queue(), &vec![(2, "from 1".to_string()), (1, "from 3".to_string())]);
    m.execute();
    assert!(m.message_queue().is_empty());
}

#[test]
fn gltf_drop_right_after_load_restores_the_manager() {
    let mut m: GltfManager<u32> = GltfManager::new(4);
    m.load_scene("a.glb", 1);
    m.load_scene("b.glb", 2);
    m.drop_scene("b.glb");
    assert_eq!(m.len(), 1);
    assert_eq!(m.find_index("a.glb"), Some(0));
    assert_eq!(*m.scene(0), 1);
    assert!(m.needs_load("b.glb"));
}

#[test]
fn gltf_loading_a_held_file_keeps_the_first_scene() {
    let mut m: GltfManager<u32> = GltfManager::new(2);
    m.load_scene("a.glb", 1);
    m.load_scene("a.glb", 2);
    assert_eq!(m.len(), 1);
    assert_eq!(*m.scene(0), 1);
}

#[test]
fn primitives_start_after_the_ones_before() {
    assert_eq!(primitive_first_indexes(&vec![3, 6, 0, 2]), vec![0, 3, 9, 9]);
    assert!(primitive_first_indexes(&vec![]).is_empty());
}

#[test]
fn glyph_row_that_does_not_wrap_keeps_its_height() {
    assert_eq!(next_glyph_location((0, u32::MAX), (32, 40), 512), (32, u32::MAX));
}

#[test]
fn collect_outgoing_keeps_the_messages_in_order() {
    use_collect();
}

fn use_collect() {
    let q = portia::actors::collect_outgoing(vec![Some((2u8, 'a')), None, Some((1u8, 'b')), None]);
    assert_eq!(q, vec![(2, 'a'), (1, 'b')]);
    assert!(portia::actors::collect_outgoing::<u8, char>(vec![None, None]).is_empty());
}

#[test]
fn glyph_cache_keeps_one_glyph_per_character() {
    let mut cache: GlyphCache<(u32, u32)> = GlyphCache::new();
    assert_eq!(cache.get('a'), None);
    cache.insert('a', (0, 0));
    cache.insert('b', (32, 0));
    assert_eq!(cache.get('a'), Some((0, 0)));
    cache.insert('a', (64, 0));
    assert_eq!(cache.get('a'), Some((64, 0)));
    assert_eq!(cache.get('b'), Some((32, 0)));
    assert_eq!(cache.get('c'), None);
}

#[test]
fn mesh_indices_follow_the_buffer_and_each_other() {
    let mut buffer: Vec<u32> = vec![7, 7];
    let range = append_mesh_indices(&mut buffer, &vec![vec![0, 1, 2], vec![], vec![2, 1]]);
    assert_eq!(range.start, 2);
    assert_eq!(range.end, 7);
    assert_eq!(buffer, vec![7, 7, 0, 1, 2, 2, 1]);
    assert_eq!(
        range.primitives,
        vec![
            PrimitiveRange { first_index: 2, index_count: 3 },
            PrimitiveRange { first_index: 5, index_count: 0 },
            PrimitiveRange { first_index: 5, index_count: 2 },
        ]
    );
}

#[test]
fn glyph_atlas_places_caches_and_wraps() {
    let mut atlas = GlyphAtlas::new((32, 40), (64, 80));
    assert!(atlas.room_for_glyph());
    let (a, write) = atlas.place('a', Some(20));
    assert_eq!(write, Some((0, 0)));
    assert_eq!(a.pixel_size, (20, 40));
    assert!(!a.is_whitespace);
    let (again, write) = atlas.place('a', Some(99));
    assert_eq!(write, None);
    assert_eq!(again.texture_pixel_location, (0, 0));
    let (space, write) = atlas.place(' ', None);
    assert_eq!(write, None);
    assert!(space.is_whitespace);
    assert_eq!(space.pixel_size, (8, 3));
    let (_, write) = atlas.place('b', Some(30));
    assert_eq!(write, Some((32, 0)));
    let (_, write) = atlas.place('c', Some(30));
    assert_eq!(write, Some((0, 40)));
    let (_, write) = atlas.place('d', Some(30));
    assert_eq!(write, Some((32, 40)));
    assert!(!atlas.room_for_glyph());
}

#[test]
fn adding_an_instance_marks_the_filled_side_for_writing() {
    let a: InnerInstanceContainer<u8, &str> = InnerInstanceContainer::new(vec![0; 1], "a");
    let b: InnerInstanceContainer<u8, &str> = InnerInstanceContainer::new(vec![0; 1], "b");
    let mut c = InstanceContainer::new(a, b);
    assert!(!c.update_buffer());
    assert!(c.add_instance(4));
    assert!(c.update_buffer());
    assert!(!c.add_instance(5));
    assert!(!c.update_buffer());
}
