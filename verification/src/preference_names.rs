//! That no preference is listed twice among those that a controlled session switches off.

use vstd::prelude::*;
use vstd::string::*;

use crate::engine::disabled_preferences;

verus! {

/// A number by which the listed names are told apart: it depends on a name's length and on three of
/// its characters.
spec fn mark(name: Seq<char>) -> int {
    1000 * name.len() + name[4] as int + 2 * name[name.len() - 2] as int + 3 * name[name.len()
        - 10] as int
}

/// The place at which a name with the given mark is listed.
spec fn place(mark: int) -> int {
    if mark == 39632 {
        0
    } else if mark == 32644 {
        1
    } else if mark == 17628 {
        2
    } else if mark == 44620 {
        3
    } else if mark == 32637 {
        4
    } else if mark == 21665 {
        5
    } else if mark == 23616 {
        6
    } else if mark == 34680 {
        7
    } else if mark == 27641 {
        8
    } else if mark == 21648 {
        9
    } else if mark == 29630 {
        10
    } else if mark == 26643 {
        11
    } else if mark == 23643 {
        12
    } else if mark == 33631 {
        13
    } else if mark == 25625 {
        14
    } else if mark == 23639 {
        15
    } else if mark == 20601 {
        16
    } else if mark == 19596 {
        17
    } else if mark == 23638 {
        18
    } else if mark == 21607 {
        19
    } else if mark == 33610 {
        20
    } else if mark == 39654 {
        21
    } else if mark == 24645 {
        22
    } else if mark == 28604 {
        23
    } else if mark == 23644 {
        24
    } else if mark == 27619 {
        25
    } else if mark == 25620 {
        26
    } else if mark == 24620 {
        27
    } else if mark == 31653 {
        28
    } else if mark == 20618 {
        29
    } else if mark == 26651 {
        30
    } else if mark == 18645 {
        31
    } else if mark == 18657 {
        32
    } else if mark == 18669 {
        33
    } else if mark == 30624 {
        34
    } else if mark == 32633 {
        35
    } else if mark == 21602 {
        36
    } else if mark == 39643 {
        37
    } else if mark == 17681 {
        38
    } else if mark == 36624 {
        39
    } else if mark == 26646 {
        40
    } else if mark == 26654 {
        41
    } else if mark == 29651 {
        42
    } else if mark == 27670 {
        43
    } else if mark == 28598 {
        44
    } else if mark == 23621 {
        45
    } else if mark == 24663 {
        46
    } else if mark == 24681 {
        47
    } else if mark == 26665 {
        48
    } else if mark == 14706 {
        49
    } else if mark == 35684 {
        50
    } else if mark == 33624 {
        51
    } else if mark == 19624 {
        52
    } else if mark == 27651 {
        53
    } else if mark == 30629 {
        54
    } else if mark == 19629 {
        55
    } else if mark == 29641 {
        56
    } else if mark == 53647 {
        57
    } else if mark == 25659 {
        58
    } else if mark == 23648 {
        59
    } else if mark == 38621 {
        60
    } else if mark == 39618 {
        61
    } else if mark == 38637 {
        62
    } else if mark == 39648 {
        63
    } else if mark == 38651 {
        64
    } else if mark == 51621 {
        65
    } else if mark == 20660 {
        66
    } else if mark == 21642 {
        67
    } else if mark == 47642 {
        68
    } else if mark == 30676 {
        69
    } else if mark == 42624 {
        70
    } else if mark == 30664 {
        71
    } else if mark == 20646 {
        72
    } else if mark == 21629 {
        73
    } else if mark == 36678 {
        74
    } else {
        75
    }
}

/// The name at `i` is listed where its mark says.
spec fn in_place(i: int) -> bool {
    place(mark(disabled_preferences()[i])) == i
}

proof fn lemma_places_from_0(i: int)
    requires
        0 <= i < 15,
    ensures
        in_place(i),
{
    if i == 0 {
        reveal_strlit("dom_allow_preloading_module_descendants");
        assert(disabled_preferences()[0] == "dom_allow_preloading_module_descendants"@);
        assert(mark("dom_allow_preloading_module_descendants"@) == 39632);
    } else if i == 1 {
        reveal_strlit("dom_parallel_css_parsing_enabled");
        assert(disabled_preferences()[1] == "dom_parallel_css_parsing_enabled"@);
        assert(mark("dom_parallel_css_parsing_enabled"@) == 32644);
    } else if i == 2 {
        reveal_strlit("dom_script_asynch");
        assert(disabled_preferences()[2] == "dom_script_asynch"@);
        assert(mark("dom_script_asynch"@) == 17628);
    } else if i == 3 {
        reveal_strlit("dom_servoparser_async_html_tokenizer_enabled");
        assert(disabled_preferences()[3] == "dom_servoparser_async_html_tokenizer_enabled"@);
        assert(mark("dom_servoparser_async_html_tokenizer_enabled"@) == 44620);
    } else if i == 4 {
        reveal_strlit("js_offthread_compilation_enabled");
        assert(disabled_preferences()[4] == "js_offthread_compilation_enabled"@);
        assert(mark("js_offthread_compilation_enabled"@) == 32637);
    } else if i == 5 {
        reveal_strlit("accessibility_enabled");
        assert(disabled_preferences()[5] == "accessibility_enabled"@);
        assert(mark("accessibility_enabled"@) == 21665);
    } else if i == 6 {
        reveal_strlit("devtools_server_enabled");
        assert(disabled_preferences()[6] == "devtools_server_enabled"@);
        assert(mark("devtools_server_enabled"@) == 23616);
    } else if i == 7 {
        reveal_strlit("dom_allow_scripts_to_close_windows");
        assert(disabled_preferences()[7] == "dom_allow_scripts_to_close_windows"@);
        assert(mark("dom_allow_scripts_to_close_windows"@) == 34680);
    } else if i == 8 {
        reveal_strlit("dom_async_clipboard_enabled");
        assert(disabled_preferences()[8] == "dom_async_clipboard_enabled"@);
        assert(mark("dom_async_clipboard_enabled"@) == 27641);
    } else if i == 9 {
        reveal_strlit("dom_bluetooth_enabled");
        assert(disabled_preferences()[9] == "dom_bluetooth_enabled"@);
        assert(mark("dom_bluetooth_enabled"@) == 21648);
    } else if i == 10 {
        reveal_strlit("dom_bluetooth_testing_enabled");
        assert(disabled_preferences()[10] == "dom_bluetooth_testing_enabled"@);
        assert(mark("dom_bluetooth_testing_enabled"@) == 29630);
    } else if i == 11 {
        reveal_strlit("dom_canvas_capture_enabled");
        assert(disabled_preferences()[11] == "dom_canvas_capture_enabled"@);
        assert(mark("dom_canvas_capture_enabled"@) == 26643);
    } else if i == 12 {
        reveal_strlit("dom_cookiestore_enabled");
        assert(disabled_preferences()[12] == "dom_cookiestore_enabled"@);
        assert(mark("dom_cookiestore_enabled"@) == 23643);
    } else if i == 13 {
        reveal_strlit("dom_credential_management_enabled");
        assert(disabled_preferences()[13] == "dom_credential_management_enabled"@);
        assert(mark("dom_credential_management_enabled"@) == 33631);
    } else {
        reveal_strlit("dom_crypto_subtle_enabled");
        assert(disabled_preferences()[14] == "dom_crypto_subtle_enabled"@);
        assert(mark("dom_crypto_subtle_enabled"@) == 25625);
    }
}

proof fn lemma_places_from_15(i: int)
    requires
        15 <= i < 30,
    ensures
        in_place(i),
{
    if i == 15 {
        reveal_strlit("dom_entries_api_enabled");
        assert(disabled_preferences()[15] == "dom_entries_api_enabled"@);
        assert(mark("dom_entries_api_enabled"@) == 23639);
    } else if i == 16 {
        reveal_strlit("dom_fontface_enabled");
        assert(disabled_preferences()[16] == "dom_fontface_enabled"@);
        assert(mark("dom_fontface_enabled"@) == 20601);
    } else if i == 17 {
        reveal_strlit("dom_gamepad_enabled");
        assert(disabled_preferences()[17] == "dom_gamepad_enabled"@);
        assert(mark("dom_gamepad_enabled"@) == 19596);
    } else if i == 18 {
        reveal_strlit("dom_geolocation_enabled");
        assert(disabled_preferences()[18] == "dom_geolocation_enabled"@);
        assert(mark("dom_geolocation_enabled"@) == 23638);
    } else if i == 19 {
        reveal_strlit("dom_indexeddb_enabled");
        assert(disabled_preferences()[19] == "dom_indexeddb_enabled"@);
        assert(mark("dom_indexeddb_enabled"@) == 21607);
    } else if i == 20 {
        reveal_strlit("dom_intersection_observer_enabled");
        assert(disabled_preferences()[20] == "dom_intersection_observer_enabled"@);
        assert(mark("dom_intersection_observer_enabled"@) == 33610);
    } else if i == 21 {
        reveal_strlit("dom_navigator_protocol_handlers_enabled");
        assert(disabled_preferences()[21] == "dom_navigator_protocol_handlers_enabled"@);
        assert(mark("dom_navigator_protocol_handlers_enabled"@) == 39654);
    } else if i == 22 {
        reveal_strlit("dom_notification_enabled");
        assert(disabled_preferences()[22] == "dom_notification_enabled"@);
        assert(mark("dom_notification_enabled"@) == 24645);
    } else if i == 23 {
        reveal_strlit("dom_offscreen_canvas_enabled");
        assert(disabled_preferences()[23] == "dom_offscreen_canvas_enabled"@);
        assert(mark("dom_offscreen_canvas_enabled"@) == 28604);
    } else if i == 24 {
        reveal_strlit("dom_permissions_enabled");
        assert(disabled_preferences()[24] == "dom_permissions_enabled"@);
        assert(mark("dom_permissions_enabled"@) == 23644);
    } else if i == 25 {
        reveal_strlit("dom_resize_observer_enabled");
        assert(disabled_preferences()[25] == "dom_resize_observer_enabled"@);
        assert(mark("dom_resize_observer_enabled"@) == 27619);
    } else if i == 26 {
        reveal_strlit("dom_serviceworker_enabled");
        assert(disabled_preferences()[26] == "dom_serviceworker_enabled"@);
        assert(mark("dom_serviceworker_enabled"@) == 25620);
    } else if i == 27 {
        reveal_strlit("dom_sharedworker_enabled");
        assert(disabled_preferences()[27] == "dom_sharedworker_enabled"@);
        assert(mark("dom_sharedworker_enabled"@) == 24620);
    } else if i == 28 {
        reveal_strlit("dom_storage_manager_api_enabled");
        assert(disabled_preferences()[28] == "dom_storage_manager_api_enabled"@);
        assert(mark("dom_storage_manager_api_enabled"@) == 31653);
    } else {
        reveal_strlit("dom_wakelock_enabled");
        assert(disabled_preferences()[29] == "dom_wakelock_enabled"@);
        assert(mark("dom_wakelock_enabled"@) == 20618);
    }
}

proof fn lemma_places_from_30(i: int)
    requires
        30 <= i < 45,
    ensures
        in_place(i),
{
    if i == 30 {
        reveal_strlit("dom_web_animations_enabled");
        assert(disabled_preferences()[30] == "dom_web_animations_enabled"@);
        assert(mark("dom_web_animations_enabled"@) == 26651);
    } else if i == 31 {
        reveal_strlit("dom_webgl2_enabled");
        assert(disabled_preferences()[31] == "dom_webgl2_enabled"@);
        assert(mark("dom_webgl2_enabled"@) == 18645);
    } else if i == 32 {
        reveal_strlit("dom_webgpu_enabled");
        assert(disabled_preferences()[32] == "dom_webgpu_enabled"@);
        assert(mark("dom_webgpu_enabled"@) == 18657);
    } else if i == 33 {
        reveal_strlit("dom_webrtc_enabled");
        assert(disabled_preferences()[33] == "dom_webrtc_enabled"@);
        assert(mark("dom_webrtc_enabled"@) == 18669);
    } else if i == 34 {
        reveal_strlit("dom_webrtc_transceiver_enabled");
        assert(disabled_preferences()[34] == "dom_webrtc_transceiver_enabled"@);
        assert(mark("dom_webrtc_transceiver_enabled"@) == 30624);
    } else if i == 35 {
        reveal_strlit("largest_contentful_paint_enabled");
        assert(disabled_preferences()[35] == "largest_contentful_paint_enabled"@);
        assert(mark("largest_contentful_paint_enabled"@) == 32633);
    } else if i == 36 {
        reveal_strlit("media_glvideo_enabled");
        assert(disabled_preferences()[36] == "media_glvideo_enabled"@);
        assert(mark("media_glvideo_enabled"@) == 21602);
    } else if i == 37 {
        reveal_strlit("network_local_directory_listing_enabled");
        assert(disabled_preferences()[37] == "network_local_directory_listing_enabled"@);
        assert(mark("network_local_directory_listing_enabled"@) == 39643);
    } else if i == 38 {
        reveal_strlit("dom_webxr_enabled");
        assert(disabled_preferences()[38] == "dom_webxr_enabled"@);
        assert(mark("dom_webxr_enabled"@) == 17681);
    } else if i == 39 {
        reveal_strlit("dom_webxr_first_person_observer_view");
        assert(disabled_preferences()[39] == "dom_webxr_first_person_observer_view"@);
        assert(mark("dom_webxr_first_person_observer_view"@) == 36624);
    } else if i == 40 {
        reveal_strlit("dom_webxr_glwindow_cubemap");
        assert(disabled_preferences()[40] == "dom_webxr_glwindow_cubemap"@);
        assert(mark("dom_webxr_glwindow_cubemap"@) == 26646);
    } else if i == 41 {
        reveal_strlit("dom_webxr_glwindow_enabled");
        assert(disabled_preferences()[41] == "dom_webxr_glwindow_enabled"@);
        assert(mark("dom_webxr_glwindow_enabled"@) == 26654);
    } else if i == 42 {
        reveal_strlit("dom_webxr_glwindow_left_right");
        assert(disabled_preferences()[42] == "dom_webxr_glwindow_left_right"@);
        assert(mark("dom_webxr_glwindow_left_right"@) == 29651);
    } else if i == 43 {
        reveal_strlit("dom_webxr_glwindow_red_cyan");
        assert(disabled_preferences()[43] == "dom_webxr_glwindow_red_cyan"@);
        assert(mark("dom_webxr_glwindow_red_cyan"@) == 27670);
    } else {
        reveal_strlit("dom_webxr_glwindow_spherical");
        assert(disabled_preferences()[44] == "dom_webxr_glwindow_spherical"@);
        assert(mark("dom_webxr_glwindow_spherical"@) == 28598);
    }
}

proof fn lemma_places_from_45(i: int)
    requires
        45 <= i < 60,
    ensures
        in_place(i),
{
    if i == 45 {
        reveal_strlit("dom_webxr_hands_enabled");
        assert(disabled_preferences()[45] == "dom_webxr_hands_enabled"@);
        assert(mark("dom_webxr_hands_enabled"@) == 23621);
    } else if i == 46 {
        reveal_strlit("dom_webxr_layers_enabled");
        assert(disabled_preferences()[46] == "dom_webxr_layers_enabled"@);
        assert(mark("dom_webxr_layers_enabled"@) == 24663);
    } else if i == 47 {
        reveal_strlit("dom_webxr_openxr_enabled");
        assert(disabled_preferences()[47] == "dom_webxr_openxr_enabled"@);
        assert(mark("dom_webxr_openxr_enabled"@) == 24681);
    } else if i == 48 {
        reveal_strlit("dom_webxr_sessionavailable");
        assert(disabled_preferences()[48] == "dom_webxr_sessionavailable"@);
        assert(mark("dom_webxr_sessionavailable"@) == 26665);
    } else if i == 49 {
        reveal_strlit("dom_webxr_test");
        assert(disabled_preferences()[49] == "dom_webxr_test"@);
        assert(mark("dom_webxr_test"@) == 14706);
    } else if i == 50 {
        reveal_strlit("dom_webxr_unsafe_assume_user_intent");
        assert(disabled_preferences()[50] == "dom_webxr_unsafe_assume_user_intent"@);
        assert(mark("dom_webxr_unsafe_assume_user_intent"@) == 35684);
    } else if i == 51 {
        reveal_strlit("dom_worklet_blockingsleep_enabled");
        assert(disabled_preferences()[51] == "dom_worklet_blockingsleep_enabled"@);
        assert(mark("dom_worklet_blockingsleep_enabled"@) == 33624);
    } else if i == 52 {
        reveal_strlit("dom_worklet_enabled");
        assert(disabled_preferences()[52] == "dom_worklet_enabled"@);
        assert(mark("dom_worklet_enabled"@) == 19624);
    } else if i == 53 {
        reveal_strlit("dom_worklet_testing_enabled");
        assert(disabled_preferences()[53] == "dom_worklet_testing_enabled"@);
        assert(mark("dom_worklet_testing_enabled"@) == 27651);
    } else if i == 54 {
        reveal_strlit("css_animations_testing_enabled");
        assert(disabled_preferences()[54] == "css_animations_testing_enabled"@);
        assert(mark("css_animations_testing_enabled"@) == 30629);
    } else if i == 55 {
        reveal_strlit("dom_fullscreen_test");
        assert(disabled_preferences()[55] == "dom_fullscreen_test"@);
        assert(mark("dom_fullscreen_test"@) == 19629);
    } else if i == 56 {
        reveal_strlit("dom_microdata_testing_enabled");
        assert(disabled_preferences()[56] == "dom_microdata_testing_enabled"@);
        assert(mark("dom_microdata_testing_enabled"@) == 29641);
    } else if i == 57 {
        reveal_strlit("dom_permissions_testing_allowed_in_nonsecure_contexts");
        assert(disabled_preferences()[57] == "dom_permissions_testing_allowed_in_nonsecure_contexts"@);
        assert(mark("dom_permissions_testing_allowed_in_nonsecure_contexts"@) == 53647);
    } else if i == 58 {
        reveal_strlit("dom_servo_helpers_enabled");
        assert(disabled_preferences()[58] == "dom_servo_helpers_enabled"@);
        assert(mark("dom_servo_helpers_enabled"@) == 25659);
    } else {
        reveal_strlit("dom_testbinding_enabled");
        assert(disabled_preferences()[59] == "dom_testbinding_enabled"@);
        assert(mark("dom_testbinding_enabled"@) == 23648);
    }
}

proof fn lemma_places_from_60(i: int)
    requires
        60 <= i < 75,
    ensures
        in_place(i),
{
    if i == 60 {
        reveal_strlit("dom_testbinding_prefcontrolled_enabled");
        assert(disabled_preferences()[60] == "dom_testbinding_prefcontrolled_enabled"@);
        assert(mark("dom_testbinding_prefcontrolled_enabled"@) == 38621);
    } else if i == 61 {
        reveal_strlit("dom_testbinding_prefcontrolled2_enabled");
        assert(disabled_preferences()[61] == "dom_testbinding_prefcontrolled2_enabled"@);
        assert(mark("dom_testbinding_prefcontrolled2_enabled"@) == 39618);
    } else if i == 62 {
        reveal_strlit("dom_testbinding_preference_value_falsy");
        assert(disabled_preferences()[62] == "dom_testbinding_preference_value_falsy"@);
        assert(mark("dom_testbinding_preference_value_falsy"@) == 38637);
    } else if i == 63 {
        reveal_strlit("dom_testbinding_preference_value_truthy");
        assert(disabled_preferences()[63] == "dom_testbinding_preference_value_truthy"@);
        assert(mark("dom_testbinding_preference_value_truthy"@) == 39648);
    } else if i == 64 {
        reveal_strlit("dom_testing_element_activation_enabled");
        assert(disabled_preferences()[64] == "dom_testing_element_activation_enabled"@);
        assert(mark("dom_testing_element_activation_enabled"@) == 38651);
    } else if i == 65 {
        reveal_strlit("dom_testing_html_input_element_select_files_enabled");
        assert(disabled_preferences()[65] == "dom_testing_html_input_element_select_files_enabled"@);
        assert(mark("dom_testing_html_input_element_select_files_enabled"@) == 51621);
    } else if i == 66 {
        reveal_strlit("dom_testperf_enabled");
        assert(disabled_preferences()[66] == "dom_testperf_enabled"@);
        assert(mark("dom_testperf_enabled"@) == 20660);
    } else if i == 67 {
        reveal_strlit("dom_testutils_enabled");
        assert(disabled_preferences()[67] == "dom_testutils_enabled"@);
        assert(mark("dom_testutils_enabled"@) == 21642);
    } else if i == 68 {
        reveal_strlit("expensive_accessibility_test_assertions_enabled");
        assert(disabled_preferences()[68] == "expensive_accessibility_test_assertions_enabled"@);
        assert(mark("expensive_accessibility_test_assertions_enabled"@) == 47642);
    } else if i == 69 {
        reveal_strlit("expose_servointernals_globally");
        assert(disabled_preferences()[69] == "expose_servointernals_globally"@);
        assert(mark("expose_servointernals_globally"@) == 30676);
    } else if i == 70 {
        reveal_strlit("inspector_show_servo_internal_shadow_roots");
        assert(disabled_preferences()[70] == "inspector_show_servo_internal_shadow_roots"@);
        assert(mark("inspector_show_servo_internal_shadow_roots"@) == 42624);
    } else if i == 71 {
        reveal_strlit("layout_animations_test_enabled");
        assert(disabled_preferences()[71] == "layout_animations_test_enabled"@);
        assert(mark("layout_animations_test_enabled"@) == 30664);
    } else if i == 72 {
        reveal_strlit("layout_unimplemented");
        assert(disabled_preferences()[72] == "layout_unimplemented"@);
        assert(mark("layout_unimplemented"@) == 20646);
    } else if i == 73 {
        reveal_strlit("media_testing_enabled");
        assert(disabled_preferences()[73] == "media_testing_enabled"@);
        assert(mark("media_testing_enabled"@) == 21629);
    } else {
        reveal_strlit("webgl_testing_context_creation_error");
        assert(disabled_preferences()[74] == "webgl_testing_context_creation_error"@);
        assert(mark("webgl_testing_context_creation_error"@) == 36678);
    }
}

/// No preference is listed twice.
pub proof fn law_disabled_preferences_differ()
    ensures
        disabled_preferences().no_duplicates(),
{
    assert forall|i: int, j: int|
        0 <= i < disabled_preferences().len() && 0 <= j < disabled_preferences().len() && i
            != j implies disabled_preferences()[i] != disabled_preferences()[j] by {
        lemma_place(i);
        lemma_place(j);
    }
}

proof fn lemma_place(i: int)
    requires
        0 <= i < 75,
    ensures
        in_place(i),
{
    if i < 15 {
        lemma_places_from_0(i);
    } else if i < 30 {
        lemma_places_from_15(i);
    } else if i < 45 {
        lemma_places_from_30(i);
    } else if i < 60 {
        lemma_places_from_45(i);
    } else {
        lemma_places_from_60(i);
    }
}

} // verus!
