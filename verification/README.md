# buoyant (verified core)

Focus navigation, path geometry and view event routing of a small embedded UI
toolkit, written in Verus with contracts proved on every function.

- `src/focus.rs`: focus directions and actions, default focus positions, focus
  groups (bit patterns; the common group matches every group).
- `src/primitives.rs`, `src/primitives/geometry.rs`: points, sizes,
  rectangles, shapes as Bézier paths, the empty shape, and the straight lines
  drawn for a path.
- `src/event.rs`: events, their results (with the focused content's shape)
  and the event context.
- `src/layout.rs`, `src/render.rs`: offers, resolved layouts, the layout
  environment; animations, transition options and content shapes.
- `src/view.rs` and `src/view/`: the `ViewLayout` trait, and the `Rotary`,
  `Paginate` and `Popover` views, whose state machines and routing are stated
  exactly in their contracts.
- `app/lib.rs`: drawing shapes onto an `embedded-graphics` draw target, using
  the lines that the library computes.
