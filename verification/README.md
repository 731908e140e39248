# boru

The logic of the desktop client of a peer-to-peer messenger, verified with Verus.

- `src/` is the verified library. Link previews: `link_preview`, `url_match`, `page_meta`,
  `preview_target`, `preview_fetch`, `preview_cache`. Secure tunnels: `tunnels`, `tunnel_update`, `tunnel_labels`,
  `share_dialog`. The home screen: `home`, `home_cards`, `mesh_status`, `status_card`. Layout and
  theme: `lengths`, `layout`, `layout_overrides`, `palette`, `typography`, `theme`. Notifications:
  `notifications`.
- `app/` is the window: it draws what the library describes and carries out what the library asks
  for. Lengths are floating-point numbers and live there.
- `tests/` runs the library with the outside crates linked.

What the library takes from outside crates (regular expressions, URLs, JSON, hexadecimal digits,
random bytes) stands behind small functions whose doc comments say what is believed of them.
