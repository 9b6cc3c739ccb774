use comcore::arena::{Arena, InterfacePtr};
use comcore::desc::{InterfaceDesc, InterfaceLevel, MethodSig};
use comcore::iid::{iid_root, Iid};
use comcore::object::construct;
use comcore::status::{succeeded, E_INVALIDARG, E_NOINTERFACE, E_POINTER, NOERROR};
use comcore::vtable::{compile_layout, thunk_arity, Slot, PTR_WIDTH};

fn iid(data1: u32) -> Iid {
    Iid { data1, data2: 0x1111, data3: 0x2222, data4: [1, 2, 3, 4, 5, 6, 7, 8] }
}

fn root_level() -> InterfaceLevel {
    InterfaceLevel { iid: iid_root(), methods: Vec::new() }
}

fn root_desc() -> InterfaceDesc {
    InterfaceDesc { chain: vec![root_level()] }
}

fn animal_level() -> InterfaceLevel {
    InterfaceLevel { iid: iid(0xA), methods: vec![MethodSig { params: 1 }] }
}

/// Animal: one own method, inherits the root directly.
fn animal_desc() -> InterfaceDesc {
    InterfaceDesc { chain: vec![animal_level(), root_level()] }
}

/// Cat: two own methods, inherits Animal, which inherits the root.
fn cat_desc() -> InterfaceDesc {
    InterfaceDesc {
        chain: vec![
            InterfaceLevel {
                iid: iid(0xC),
                methods: vec![MethodSig { params: 0 }, MethodSig { params: 2 }],
            },
            animal_level(),
            root_level(),
        ],
    }
}

/// Dog: no own method, also inherits Animal.
fn dog_desc() -> InterfaceDesc {
    InterfaceDesc { chain: vec![InterfaceLevel { iid: iid(0xD), methods: Vec::new() }, animal_level(), root_level()] }
}

#[test]
fn iid_equality_is_bytewise() {
    assert_eq!(iid(5), iid(5));
    assert_ne!(iid(5), iid(6));
    let mut other = iid(5);
    other.data4[7] = 0xFF;
    assert_ne!(iid(5), other);
    assert_eq!(iid_root(), iid_root());
    assert_ne!(iid_root(), iid(0));
}

#[test]
fn status_codes_match_the_binary_convention() {
    assert_eq!(NOERROR, 0);
    assert_eq!(E_NOINTERFACE, 0x8000_4002u32 as i32);
    assert_eq!(E_POINTER, 0x8000_4003u32 as i32);
    assert_eq!(E_INVALIDARG, 0x8007_0057u32 as i32);
    assert!(succeeded(NOERROR));
    assert!(!succeeded(E_NOINTERFACE));
    assert!(!succeeded(E_POINTER));
    assert!(!succeeded(E_INVALIDARG));
}

#[test]
fn root_layout_is_the_three_mandatory_slots() {
    let layout = compile_layout(&root_desc()).unwrap();
    assert_eq!(layout, vec![Slot::QueryInterface, Slot::AddRef, Slot::Release]);
}

#[test]
fn derived_layout_lists_inherited_slots_first() {
    let layout = compile_layout(&cat_desc()).unwrap();
    assert_eq!(
        layout,
        vec![
            Slot::QueryInterface,
            Slot::AddRef,
            Slot::Release,
            Slot::User { iid: iid(0xA), method: 0, params: 1 },
            Slot::User { iid: iid(0xC), method: 0, params: 0 },
            Slot::User { iid: iid(0xC), method: 1, params: 2 },
        ]
    );
}

#[test]
fn layout_rejects_a_chain_that_misses_the_root() {
    let bare = InterfaceDesc { chain: vec![animal_level()] };
    assert_eq!(compile_layout(&bare).unwrap_err(), E_INVALIDARG);
    let empty = InterfaceDesc { chain: Vec::new() };
    assert_eq!(compile_layout(&empty).unwrap_err(), E_INVALIDARG);
}

#[test]
fn interfaces_with_a_shared_chain_tail_share_a_layout_prefix() {
    let animal = compile_layout(&animal_desc()).unwrap();
    let cat = compile_layout(&cat_desc()).unwrap();
    let dog = compile_layout(&dog_desc()).unwrap();
    assert_eq!(animal.len(), 4);
    assert_eq!(&cat[..4], &animal[..]);
    assert_eq!(&dog[..4], &animal[..]);
}

#[test]
fn thunk_arity_counts_the_implicit_self_pointer() {
    assert_eq!(thunk_arity(&Slot::QueryInterface), 3);
    assert_eq!(thunk_arity(&Slot::AddRef), 1);
    assert_eq!(thunk_arity(&Slot::Release), 1);
    assert_eq!(thunk_arity(&Slot::User { iid: iid(1), method: 0, params: 2 }), 3);
}

#[test]
fn construct_builds_one_vtable_per_interface_with_count_zero() {
    let obj = construct(vec![root_desc(), animal_desc(), cat_desc()], 99u64).unwrap();
    assert_eq!(obj.ref_count, 0);
    assert_eq!(obj.user, 99);
    assert_eq!(obj.vtables.len(), 3);
    for (index, vtable) in obj.vtables.iter().enumerate() {
        assert_eq!(vtable.adjustment, index * PTR_WIDTH);
        assert_eq!(vtable.slots, compile_layout(&obj.interfaces[index]).unwrap());
    }
}

#[test]
fn construct_rejects_duplicate_identifiers() {
    let twin = InterfaceDesc { chain: vec![animal_level(), root_level()] };
    let err = construct(vec![animal_desc(), twin], 0u64).unwrap_err();
    assert_eq!(err, E_INVALIDARG);
}

#[test]
fn construct_rejects_an_unrooted_interface() {
    let bare = InterfaceDesc { chain: vec![animal_level()] };
    let err = construct(vec![root_desc(), bare], 0u64).unwrap_err();
    assert_eq!(err, E_INVALIDARG);
}

fn arena_with_object(interfaces: Vec<InterfaceDesc>) -> (Arena<u64>, usize) {
    let obj = construct(interfaces, 0u64).unwrap();
    let mut arena = Arena::new();
    let handle = arena.insert(obj);
    (arena, handle)
}

#[test]
fn query_succeeds_iff_supported_and_moves_the_count_by_one_on_success_only() {
    let (mut arena, h) = arena_with_object(vec![root_desc(), animal_desc(), cat_desc()]);
    let ptr = arena.interface_ptr(h, 1);
    arena.add_ref(ptr);

    // Cat is implemented: success, count rises by exactly one.
    let (status, out) = arena.query_interface(ptr, &iid(0xC));
    assert_eq!(status, NOERROR);
    assert_eq!(out, Some(InterfacePtr { object: h, offset: 2 * PTR_WIDTH }));
    assert_eq!(arena.ref_count_of(h), 2);

    // Animal appears in Cat's chain: also supported, through the first
    // declared interface whose chain holds it.
    let (status, out) = arena.query_interface(ptr, &iid(0xA));
    assert_eq!(status, NOERROR);
    assert_eq!(out, Some(InterfacePtr { object: h, offset: PTR_WIDTH }));
    assert_eq!(arena.ref_count_of(h), 3);

    // An unknown identifier: the null sentinel, the not-supported status,
    // and no side effect at all.
    let (status, out) = arena.query_interface(ptr, &iid(0xEE));
    assert_eq!(status, E_NOINTERFACE);
    assert_eq!(out, None);
    assert_eq!(arena.ref_count_of(h), 3);
}

#[test]
fn add_ref_then_release_leaves_the_count_and_the_object() {
    let (mut arena, h) = arena_with_object(vec![root_desc(), animal_desc()]);
    let ptr = arena.interface_ptr(h, 1);
    arena.add_ref(ptr);
    assert_eq!(arena.ref_count_of(h), 1);

    let up = arena.add_ref(ptr);
    assert_eq!(up, 2);
    let down = arena.release(ptr);
    assert_eq!(down, 1);
    assert_eq!(arena.ref_count_of(h), 1);
    assert!(arena.is_live(h));
}

#[test]
fn query_for_the_root_returns_the_pointer_passed_in() {
    let (mut arena, h) = arena_with_object(vec![root_desc(), animal_desc(), cat_desc()]);
    let ptr = arena.interface_ptr(h, 2);
    arena.add_ref(ptr);

    let (status, out) = arena.query_interface(ptr, &iid_root());
    assert_eq!(status, NOERROR);
    assert_eq!(out, Some(ptr));
    assert_eq!(arena.ref_count_of(h), 2);
}

#[test]
fn teardown_runs_exactly_once_when_the_count_reaches_zero() {
    let (mut arena, h) = arena_with_object(vec![root_desc(), animal_desc()]);
    let keeper = arena_with_object(vec![root_desc()]);
    let mut arena2 = keeper.0;
    let h2 = keeper.1;

    let ptr = arena.interface_ptr(h, 0);
    arena.add_ref(ptr);
    let down = arena.release(ptr);
    assert_eq!(down, 0);
    assert!(!arena.is_live(h));

    // The dangling pointer no longer addresses an allocation: validation
    // answers with the invalid-pointer status and changes nothing.
    let (status, out) = arena.query_interface_checked(ptr, &iid(0xA));
    assert_eq!(status, E_POINTER);
    assert_eq!(out, None);
    assert!(!arena.is_live(h));

    // A distinct, still-live object is untouched by the teardown.
    let ptr2 = arena2.interface_ptr(h2, 0);
    arena2.add_ref(ptr2);
    assert!(arena2.is_live(h2));
    assert_eq!(arena2.ref_count_of(h2), 1);
}

#[test]
fn release_through_a_queried_pointer_decrements_the_same_counter() {
    // O implements {A, B}; query through the A pointer for B, then release
    // through the returned B pointer: the one shared counter moves.
    let (mut arena, h) = arena_with_object(vec![animal_desc(), cat_desc()]);
    let ptr_a = arena.interface_ptr(h, 0);
    arena.add_ref(ptr_a);

    let (status, out) = arena.query_interface(ptr_a, &iid(0xC));
    assert_eq!(status, NOERROR);
    let ptr_b = out.unwrap();
    assert_eq!(ptr_b.object, ptr_a.object);
    assert_eq!(arena.ref_count_of(h), 2);

    let down = arena.release(ptr_b);
    assert_eq!(down, 1);
    assert_eq!(arena.ref_count_of(h), 1);
    let down = arena.release(ptr_a);
    assert_eq!(down, 0);
    assert!(!arena.is_live(h));
}

#[test]
fn query_answers_through_the_first_declared_interface() {
    // Cat and Dog both inherit Animal: a query for Animal through any
    // pointer answers with the first declared interface whose chain holds
    // it, here Cat at index zero.
    let (mut arena, h) = arena_with_object(vec![cat_desc(), dog_desc()]);
    let ptr_dog = arena.interface_ptr(h, 1);
    arena.add_ref(ptr_dog);

    let (status, out) = arena.query_interface(ptr_dog, &iid(0xA));
    assert_eq!(status, NOERROR);
    assert_eq!(out, Some(InterfacePtr { object: h, offset: 0 }));
}

#[test]
fn checked_query_validates_the_pointer_first() {
    let (mut arena, h) = arena_with_object(vec![root_desc(), animal_desc()]);
    let ptr = arena.interface_ptr(h, 0);
    arena.add_ref(ptr);

    // A handle that addresses no allocation: invalid pointer.
    let stray = InterfacePtr { object: h + 17, offset: 0 };
    let (status, out) = arena.query_interface_checked(stray, &iid(0xA));
    assert_eq!((status, out), (E_POINTER, None));

    // A misaligned offset addresses no dispatch-pointer field.
    let askew = InterfacePtr { object: h, offset: 3 };
    let (status, out) = arena.query_interface_checked(askew, &iid(0xA));
    assert_eq!((status, out), (E_INVALIDARG, None));

    // An offset past the object's fields.
    let past = InterfacePtr { object: h, offset: 2 * PTR_WIDTH };
    let (status, out) = arena.query_interface_checked(past, &iid(0xA));
    assert_eq!((status, out), (E_INVALIDARG, None));

    // A live pointer goes through to the resolver.
    let (status, out) = arena.query_interface_checked(ptr, &iid(0xA));
    assert_eq!(status, NOERROR);
    assert_eq!(out, Some(InterfacePtr { object: h, offset: PTR_WIDTH }));
    assert_eq!(arena.ref_count_of(h), 2);

    assert_eq!(arena.ref_count_of(h), 2);
}

#[test]
fn calls_through_the_dispatch_table_behave_like_the_shared_implementation() {
    let (mut arena, h) = arena_with_object(vec![root_desc(), animal_desc(), cat_desc()]);
    let ptr = arena.interface_ptr(h, 2);

    let up = arena.call_add_ref(ptr);
    assert_eq!(up, 1);
    let up = arena.call_add_ref(ptr);
    assert_eq!(up, 2);

    let (status, out) = arena.call_query_interface(ptr, &iid_root());
    assert_eq!(status, NOERROR);
    assert_eq!(out, Some(ptr));
    assert_eq!(arena.ref_count_of(h), 3);

    let down = arena.call_release(ptr);
    assert_eq!(down, 2);
    let down = arena.call_release(ptr);
    assert_eq!(down, 1);
    let down = arena.call_release(ptr);
    assert_eq!(down, 0);
    assert!(!arena.is_live(h));
}

#[test]
fn full_lifecycle_scenario() {
    // O implements {Root, A, B}, constructed with count zero.
    let (mut arena, h) = arena_with_object(vec![root_desc(), animal_desc(), cat_desc()]);
    let ptr = arena.interface_ptr(h, 0);

    let up = arena.add_ref(ptr);
    assert_eq!(up, 1);

    let (status, out) = arena.query_interface(ptr, &iid(0xC));
    assert_eq!(status, NOERROR);
    let ptr_b = out.unwrap();
    assert_eq!(ptr_b, InterfacePtr { object: h, offset: 2 * PTR_WIDTH });
    assert_eq!(arena.ref_count_of(h), 2);

    let down = arena.release(ptr_b);
    assert_eq!(down, 1);
    let down = arena.release(ptr);
    assert_eq!(down, 0);
    assert!(!arena.is_live(h));

    // On a second, still-live object a query for an unimplemented
    // identifier returns the null sentinel and leaves the count alone.
    let (mut other, oh) = arena_with_object(vec![root_desc(), animal_desc()]);
    let optr = other.interface_ptr(oh, 0);
    other.add_ref(optr);
    let (status, out) = other.query_interface(optr, &iid(0xEE));
    assert_eq!(status, E_NOINTERFACE);
    assert_eq!(out, None);
    assert_eq!(other.ref_count_of(oh), 1);
    assert!(other.is_live(oh));
}
