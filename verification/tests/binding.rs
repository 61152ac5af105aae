use render_core::binding::BindingError;
use render_core::binding::BoundResource;
use render_core::binding::IdGen;
use render_core::binding::LayoutEntry;
use render_core::binding::LayoutError;
use render_core::binding::ResourceId;
use render_core::binding::ResourceKind;
use render_core::binding::StageSet;
use render_core::binding::build_layout;
use render_core::binding::create_binding_set;

fn id(slot: u64) -> ResourceId {
    ResourceId {
        slot,
        generation: 0,
    }
}

fn entry(binding: u32, kind: ResourceKind) -> LayoutEntry {
    LayoutEntry {
        binding,
        visibility: StageSet::Fragment,
        kind,
    }
}

#[test]
fn build_layout_accepts_consecutive_slots() {
    let entries = vec![
        entry(0, ResourceKind::SampledTexture),
        entry(1, ResourceKind::FilteringSampler),
        entry(2, ResourceKind::UniformBuffer),
    ];
    let layout = build_layout(entries.clone(), "material layout").unwrap();
    assert_eq!(layout.label, "material layout");
    assert_eq!(layout.entries, entries);
}

#[test]
fn build_layout_rejects_out_of_order_slots() {
    let entries = vec![
        entry(0, ResourceKind::SampledTexture),
        entry(2, ResourceKind::FilteringSampler),
    ];
    let err = build_layout(entries, "bad layout").unwrap_err();
    assert_eq!(err, LayoutError::SlotOutOfOrder { position: 1 });
}

#[test]
fn conforming_instance_succeeds() {
    let entries = vec![
        entry(0, ResourceKind::SampledTexture),
        entry(1, ResourceKind::FilteringSampler),
    ];
    let layout = build_layout(entries, "layout").unwrap();
    let resources = vec![
        BoundResource::TextureView { id: id(7) },
        BoundResource::Sampler {
            id: id(7),
            comparison: false,
        },
    ];
    let set = create_binding_set(resources.clone(), &layout, "set").unwrap();
    assert_eq!(set.resources, resources);
    assert_eq!(set.label, "set");
    assert_eq!(set.entries, layout.entries);
}

#[test]
fn wrong_resource_count_fails() {
    let entries = vec![
        entry(0, ResourceKind::SampledTexture),
        entry(1, ResourceKind::FilteringSampler),
    ];
    let layout = build_layout(entries, "layout").unwrap();
    let resources = vec![BoundResource::TextureView { id: id(7) }];
    let err = create_binding_set(resources, &layout, "set").unwrap_err();
    assert_eq!(
        err,
        BindingError::CountMismatch {
            expected: 2,
            got: 1
        }
    );
}

#[test]
fn wrong_resource_kind_fails() {
    let entries = vec![
        entry(0, ResourceKind::SampledTexture),
        entry(1, ResourceKind::FilteringSampler),
    ];
    let layout = build_layout(entries, "layout").unwrap();
    let resources = vec![
        BoundResource::TextureView { id: id(7) },
        BoundResource::Sampler {
            id: id(7),
            comparison: true,
        },
    ];
    let err = create_binding_set(resources, &layout, "set").unwrap_err();
    assert_eq!(err, BindingError::KindMismatch { position: 1 });
}

#[test]
fn uniform_slot_refuses_storage_buffer() {
    let entries = vec![entry(0, ResourceKind::UniformBuffer)];
    let layout = build_layout(entries, "layout").unwrap();
    let resources = vec![BoundResource::StorageBuffer {
        id: id(3),
        read_only: true,
    }];
    let err = create_binding_set(resources, &layout, "set").unwrap_err();
    assert_eq!(err, BindingError::KindMismatch { position: 0 });
}

#[test]
fn storage_read_only_flag_is_part_of_the_kind() {
    let entries = vec![entry(
        0,
        ResourceKind::StorageBuffer { read_only: true },
    )];
    let layout = build_layout(entries, "layout").unwrap();
    let writable = vec![BoundResource::StorageBuffer {
        id: id(3),
        read_only: false,
    }];
    assert!(create_binding_set(writable, &layout, "set").is_err());
    let read_only = vec![BoundResource::StorageBuffer {
        id: id(3),
        read_only: true,
    }];
    assert!(create_binding_set(read_only, &layout, "set").is_ok());
}

#[test]
fn resource_kinds_match_variants() {
    assert_eq!(
        BoundResource::UniformBuffer { id: id(0) }.kind(),
        ResourceKind::UniformBuffer
    );
    assert_eq!(
        BoundResource::Sampler {
            id: id(0),
            comparison: true
        }
        .kind(),
        ResourceKind::ComparisonSampler
    );
    assert_eq!(
        BoundResource::Sampler {
            id: id(0),
            comparison: false
        }
        .kind(),
        ResourceKind::FilteringSampler
    );
}

#[test]
fn id_gen_hands_out_consecutive_slots() {
    let mut ids = IdGen::new();
    let a = ids.fresh();
    let b = ids.fresh();
    assert_eq!(a.slot, 0);
    assert_eq!(b.slot, 1);
    assert_eq!(a.generation, 0);
    assert_eq!(ids.next_slot, 2);
}
