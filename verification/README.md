# matcraft

A morphological paradigm engine for Russian obscene vocabulary: 35 roots with
their semantic domain and productivity, 18 prefixes (with allomorphs and
fluid-vowel forms), 4 suffix classes and 5 endings. For a root it builds every
prefix × suffix × ending form with the attestation level the source grounds,
draws random forms, and renders the explore table, the root list, the random
box and the per-form breakdown block.

The library in `src/` is written in Verus: every function carries a contract
over character sequences. Properties that span functions are stated and
proved as `law_*` proof functions:

- paradigm: `law_paradigm_size`, `law_filtered_paradigm_size`,
  `law_filtered_is_filter_of_full`, `law_filtered_forms_admitted`,
  `law_filter_value_or_display`, `law_forms_from_table`,
  `law_class_e_forms_possible`, `law_fill_vowel_boundary`,
  `law_example_is_first_sample`;
- roots and modes: `law_mode_pool_exact`, `law_full_mode_shows_all`,
  `law_list_roots_filters_inventory`, `law_classic_within_full`,
  `law_lookup_defaults`, `law_unlisted_row_possible`, `law_inventory_complete`,
  `law_root_names_distinct`,
  `law_prefix_displays_distinct`, `law_suffix_round_trip`,
  `law_ending_round_trip`;
- random forms: `law_generate_pool`, `law_draws_distinct`, `law_sample_forms`,
  `law_phrases_contain_topic`, `law_gender_of_last_word`;
- display: `law_wrap_lines_fit`, `law_wrap_keeps_words`, `law_wrap_greedy`,
  `law_box_lines_equal_width`, `law_random_box_aligned`,
  `law_box_aligned_for_short_samples`, `law_inventory_boxes_aligned`,
  `law_explore_tally_is_combos`, `law_explore_header_counts`,
  `law_explore_blocks_iff_filtered`, `law_unfiltered_has_no_heading`,
  `law_inventory_unfiltered_has_no_heading`.

- `roots/` — the root inventory and attestation tables, one file per group.
- `morpheme.rs` — types, prefix / suffix / ending inventories, allomorph choice.
- `grammar.rs` — building a word form from its morphemes.
- `paradigm.rs` — the paradigm of a root, root lists by mode, random and daily
  roots, random forms, sample and example forms.
- `display/` — the explore table, the root list, the random box, the breakdown
  block, word wrapping; `heading.rs` shows where the breakdown heading can
  appear.
- `commands.rs` — each command of the tool as text.
- `generator.rs`, `morphemes.rs` — the topic phrase generator.
- `chance.rs` — the random draws, made through `rand`.
- `text.rs` — string helpers specified over character sequences.

`app/main.rs` is the command-line front end (argument parsing with `clap`,
the system clock, printing).
