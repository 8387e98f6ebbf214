# spot_models

Data models and interface decisions of a GTK music player, with their contracts and proofs.

- `src/text.rs`: joining text with a separator, decimal notation of numbers.
- `src/models.rs`: albums, songs, playlists, users, copyright notices and the
  paging of long song lists; album equality; album and playlist list items.
- `src/list_items.rs`: the items the interface's lists show (albums, songs, artists)
  and the rendering of song durations.
- `src/settings_model.rs`: the settings page's model and its selection tools.
- `src/components.rs`: how the pages react to application events, their labels,
  and the items built from search results.
- `app/`: the GTK widgets and signals that carry out what the library decides.
